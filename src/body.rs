use vstd::prelude::*;

verus! {

/// A message payload: absent, or a sequence of bytes held in memory.
#[derive(Debug)]
pub struct Body {
    pub data: Option<Vec<u8>>,
}

impl View for Body {
    type V = Seq<u8>;

    /// The bytes of the body; an absent body reads as no bytes.
    open spec fn view(&self) -> Seq<u8> {
        match self.data {
            Some(d) => d@,
            None => Seq::empty(),
        }
    }
}

impl Body {
    pub fn empty() -> (r: Body)
        ensures
            r.data.is_none(),
            r@.len() == 0,
    {
        Body { data: None }
    }
}

impl From<Vec<u8>> for Body {
    fn from(data: Vec<u8>) -> (r: Body) {
        Body { data: Some(data) }
    }
}

impl vstd::std_specs::convert::FromSpecImpl<Vec<u8>> for Body {
    open spec fn obeys_from_spec() -> bool {
        true
    }

    open spec fn from_spec(data: Vec<u8>) -> Body {
        Body { data: Some(data) }
    }
}

/// Takes the bytes out of a body; the body is consumed, so it is read once.
pub fn recv_bytes(body: Body) -> (r: Vec<u8>)
    ensures
        r@ == body@,
{
    match body.data {
        Some(d) => d,
        None => Vec::new(),
    }
}

} // verus!
