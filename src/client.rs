use vstd::prelude::*;
use vstd::string::*;
use crate::body::Body;

verus! {

/// One header line of a request or a response.
#[derive(Debug)]
pub struct Header {
    pub name: String,
    pub value: String,
}

impl View for Header {
    type V = (Seq<char>, Seq<char>);

    open spec fn view(&self) -> (Seq<char>, Seq<char>) {
        (self.name@, self.value@)
    }
}

/// The header lines of a request, in order, as pairs of name and value.
pub open spec fn headers_view(hs: Seq<Header>) -> Seq<(Seq<char>, Seq<char>)> {
    hs.map_values(|h: Header| h@)
}

/// An outgoing request: method, target, header lines and payload.
#[derive(Debug)]
pub struct Request {
    pub method: String,
    pub uri: String,
    pub headers: Vec<Header>,
    pub body: Body,
}

pub open spec fn ascii_lower(c: char) -> char {
    if 'A' <= c && c <= 'Z' {
        ((c as u8) + 32) as char
    } else {
        c
    }
}

/// The name of the authorization header, in lower case.
pub open spec fn authorization_name() -> Seq<char> {
    seq!['a', 'u', 't', 'h', 'o', 'r', 'i', 'z', 'a', 't', 'i', 'o', 'n']
}

/// Header names compare without regard to ASCII case.
pub open spec fn is_authorization(name: Seq<char>) -> bool {
    name.len() == authorization_name().len() && forall|i: int|
        0 <= i < name.len() ==> #[trigger] ascii_lower(name[i]) == authorization_name()[i]
}

/// The header lines that remain once every authorization line is taken out.
pub open spec fn without_authorization(hs: Seq<(Seq<char>, Seq<char>)>) -> Seq<(Seq<char>, Seq<char>)>
    decreases hs.len(),
{
    if hs.len() == 0 {
        hs
    } else {
        let rest = without_authorization(hs.drop_last());
        if is_authorization(hs.last().0) {
            rest
        } else {
            rest.push(hs.last())
        }
    }
}

/// A byte that may stand in a header value: tab, or anything from space up
/// but DEL. Every byte of a multi-byte UTF-8 character is above DEL.
pub open spec fn is_header_value_char(c: char) -> bool {
    c == '\t' || (c as u32 >= 32 && c as u32 != 127)
}

pub open spec fn is_header_value(s: Seq<char>) -> bool {
    forall|i: int| 0 <= i < s.len() ==> #[trigger] is_header_value_char(s[i])
}

pub open spec fn bearer_prefix() -> Seq<char> {
    seq!['B', 'e', 'a', 'r', 'e', 'r', ' ']
}

/// Relies on http::HeaderValue::from_str: it accepts a string exactly when
/// every byte is a tab or lies in 32..=255 apart from 127.
#[verifier::external_body]
fn header_value_ok(s: &str) -> (r: bool)
    ensures
        r == is_header_value(s@),
{
    http::HeaderValue::from_str(s).is_ok()
}

fn is_authorization_name(name: &str) -> (r: bool)
    ensures
        r == is_authorization(name@),
{
    let n = name.unicode_len();
    if n != 13 {
        return false;
    }
    let expected = "authorization";
    proof {
        reveal_strlit("authorization");
        assert(expected@ =~= authorization_name());
    }
    let mut i: usize = 0;
    while i < n
        invariant
            n == name@.len(),
            n == 13,
            expected@ == authorization_name(),
            0 <= i <= n,
            forall|j: int| 0 <= j < i ==> #[trigger] ascii_lower(name@[j]) == authorization_name()[j],
        decreases n - i,
    {
        let c = name.get_char(i);
        let lower = if 'A' <= c && c <= 'Z' {
            ((c as u8) + 32) as char
        } else {
            c
        };
        assert(lower == ascii_lower(name@[i as int]));
        if lower != expected.get_char(i) {
            assert(ascii_lower(name@[i as int]) != authorization_name()[i as int]);
            return false;
        }
        i = i + 1;
    }
    true
}

/// The entry point of the library's users: holds the bearer token that is
/// sent with every request.
pub struct Client {
    access_token: Option<String>,
}

impl View for Client {
    type V = Option<Seq<char>>;

    /// The full value of the authorization header, `"Bearer " + token`.
    closed spec fn view(&self) -> Option<Seq<char>> {
        match self.access_token {
            Some(t) => Some(t@),
            None => None,
        }
    }
}

impl Client {
    pub fn new() -> (r: Client)
        ensures
            r@.is_none(),
    {
        Client { access_token: None }
    }

    /// Replaces the stored token; the last one set is the one in effect.
    pub fn set_access_token(&mut self, access_token: &str)
        ensures
            final(self)@ == Some(bearer_prefix() + access_token@),
    {
        let mut buf = String::from_str("Bearer ");
        proof {
            reveal_strlit("Bearer ");
            assert("Bearer "@ =~= bearer_prefix());
        }
        buf.append(access_token);
        self.access_token = Some(buf);
    }

    /// Puts the token into the request's authorization header, in place of
    /// any such header the caller wrote. A token that cannot be a header
    /// value is left out and the request goes as it is.
    pub fn authorize(&self, request: &mut Request)
        ensures
            final(request).method == old(request).method,
            final(request).uri == old(request).uri,
            final(request).body == old(request).body,
            headers_view(final(request).headers@) == (match self@ {
                Some(t) => if is_header_value(t) {
                    without_authorization(headers_view(old(request).headers@)).push(
                        (authorization_name(), t),
                    )
                } else {
                    headers_view(old(request).headers@)
                },
                None => headers_view(old(request).headers@),
            }),
    {
        match &self.access_token {
            Some(token) => {
                if header_value_ok(token.as_str()) {
                    let old_headers = &request.headers;
                    let mut kept: Vec<Header> = Vec::new();
                    let mut i: usize = 0;
                    while i < old_headers.len()
                        invariant
                            0 <= i <= old_headers@.len(),
                            headers_view(kept@) == without_authorization(
                                headers_view(old_headers@.subrange(0, i as int)),
                            ),
                        decreases old_headers@.len() - i,
                    {
                        let h = &old_headers[i];
                        proof {
                            let pre = old_headers@.subrange(0, i as int);
                            let next = old_headers@.subrange(0, i + 1);
                            assert(next.drop_last() =~= pre);
                            assert(headers_view(next).drop_last() =~= headers_view(pre));
                        }
                        if !is_authorization_name(h.name.as_str()) {
                            kept.push(Header { name: h.name.clone(), value: h.value.clone() });
                            proof {
                                assert(headers_view(kept@) =~= without_authorization(
                                    headers_view(old_headers@.subrange(0, i as int)),
                                ).push(h@));
                            }
                        }
                        i = i + 1;
                    }
                    assert(old_headers@.subrange(0, old_headers@.len() as int) =~= old_headers@);
                    let name = String::from_str("authorization");
                    proof {
                        reveal_strlit("authorization");
                        assert(name@ =~= authorization_name());
                    }
                    kept.push(Header { name, value: token.clone() });
                    proof {
                        assert(headers_view(kept@) =~= without_authorization(
                            headers_view(old_headers@),
                        ).push((authorization_name(), token@)));
                    }
                    request.headers = kept;
                }
            },
            None => {},
        }
    }
}

} // verus!

verus! {

proof fn lemma_no_authorization_left(hs: Seq<(Seq<char>, Seq<char>)>)
    ensures
        forall|i: int| 0 <= i < without_authorization(hs).len()
            ==> !is_authorization(#[trigger] without_authorization(hs)[i].0),
    decreases hs.len(),
{
    if hs.len() > 0 {
        lemma_no_authorization_left(hs.drop_last());
        let rest = without_authorization(hs.drop_last());
        if !is_authorization(hs.last().0) {
            assert forall|i: int| 0 <= i < rest.len() + 1 implies !is_authorization(
                #[trigger] rest.push(hs.last())[i].0,
            ) by {
                if i < rest.len() {
                    assert(rest.push(hs.last())[i] == rest[i]);
                }
            }
        }
    }
}

/// Once a token is set, an authorized request carries exactly one
/// authorization header, the last, whose value is `"Bearer " + token`.
pub proof fn lemma_one_authorization(token: Seq<char>, hs: Seq<(Seq<char>, Seq<char>)>)
    requires
        is_header_value(bearer_prefix() + token),
    ensures
        ({
            let sent = without_authorization(hs).push((authorization_name(), bearer_prefix() + token));
            &&& is_authorization(sent.last().0)
            &&& sent.last().1 == bearer_prefix() + token
            &&& forall|i: int| 0 <= i < sent.len() - 1 ==> !is_authorization(#[trigger] sent[i].0)
        }),
{
    lemma_no_authorization_left(hs);
    let sent = without_authorization(hs).push((authorization_name(), bearer_prefix() + token));
    assert forall|i: int| 0 <= i < sent.len() - 1 implies !is_authorization(#[trigger] sent[i].0) by {
        assert(sent[i] == without_authorization(hs)[i]);
    }
    assert(is_authorization(authorization_name())) by {
        assert forall|i: int| 0 <= i < authorization_name().len() implies #[trigger] ascii_lower(
            authorization_name()[i],
        ) == authorization_name()[i] by {
            let c = authorization_name()[i];
            assert(!('A' <= c && c <= 'Z'));
        }
    }
}

} // verus!
