use vstd::prelude::*;
use vstd::string::*;
use crate::body::Body;
use crate::client::{Header, Request, headers_view};
use crate::error::Error;

verus! {

/// The status that accepts a protocol upgrade (Switching Protocols).
pub const SWITCHING_PROTOCOLS: u16 = 101;

/// The handshake request of a WebSocket upgrade to `uri`, with the client
/// nonce `key`.
pub fn upgrade_request(uri: &str, key: &str) -> (r: Request)
    ensures
        r.method@ == "GET"@,
        r.uri@ == uri@,
        r.body@.len() == 0,
        headers_view(r.headers@) == seq![
            ("connection"@, "Upgrade"@),
            ("upgrade"@, "websocket"@),
            ("sec-websocket-version"@, "13"@),
            ("sec-websocket-key"@, key@),
        ],
{
    let mut headers: Vec<Header> = Vec::new();
    headers.push(
        Header { name: String::from_str("connection"), value: String::from_str("Upgrade") },
    );
    headers.push(
        Header { name: String::from_str("upgrade"), value: String::from_str("websocket") },
    );
    headers.push(
        Header { name: String::from_str("sec-websocket-version"), value: String::from_str("13") },
    );
    headers.push(Header { name: String::from_str("sec-websocket-key"), value: String::from_str(key) });
    let r = Request {
        method: String::from_str("GET"),
        uri: String::from_str(uri),
        headers,
        body: Body::empty(),
    };
    assert(headers_view(r.headers@) =~= seq![
        ("connection"@, "Upgrade"@),
        ("upgrade"@, "websocket"@),
        ("sec-websocket-version"@, "13"@),
        ("sec-websocket-key"@, key@),
    ]);
    r
}

/// Accepts the answer to an upgrade request only when its status is exactly
/// Switching Protocols; any other status, 2xx included, is a `Status` error.
pub fn check_upgrade(status: u16) -> (r: Result<(), Error>)
    ensures
        status == SWITCHING_PROTOCOLS <==> r is Ok,
        status != SWITCHING_PROTOCOLS ==> r == Err::<(), Error>(Error::Status { status }),
{
    if status == SWITCHING_PROTOCOLS {
        Ok(())
    } else {
        Err(Error::Status { status })
    }
}

} // verus!

verus! {

/// A message of the embedded backend's streams: text only, so a binary frame
/// cannot be handed to `start_send` at all.
#[derive(Debug)]
pub enum Message {
    Text(String),
}

/// A failure of sending on a stream.
#[derive(Debug)]
pub enum WsError {
    /// The host refused the message.
    Send { detail: String },
    /// The stream is no longer open.
    NotOpen,
}

/// The phase of an upgraded connection once its handshake succeeded.
#[derive(Debug, PartialEq, Eq, Structural, Clone, Copy)]
pub enum Phase {
    Open,
    Closed,
}

/// The host's lifecycle callbacks that can decide a handshake.
#[derive(Debug, PartialEq, Eq, Structural, Clone, Copy)]
pub enum Signal {
    Open,
    Close,
    Error,
}

/// The first thing a poll of the stream's channels found ready: a message,
/// else the first of the error and the close to have fired.
#[derive(Debug)]
pub enum Inbound {
    Message(Message),
    Error,
    Close,
}

/// What a poll of the stream yields.
#[derive(Debug)]
pub enum Next {
    /// Nothing has arrived yet.
    Pending,
    /// An inbound message, in arrival order.
    Message(Message),
    /// The connection failed; the stream ends after this.
    Errored,
    /// The connection was closed; the stream ends after this.
    Closed,
    /// The stream has ended.
    End,
}

/// One poll: the new phase and what the caller receives.
pub open spec fn poll_step(phase: Phase, ready: Option<Inbound>) -> (Phase, Next) {
    match phase {
        Phase::Closed => (Phase::Closed, Next::End),
        Phase::Open => match ready {
            None => (Phase::Open, Next::Pending),
            Some(Inbound::Message(m)) => (Phase::Open, Next::Message(m)),
            Some(Inbound::Error) => (Phase::Closed, Next::Errored),
            Some(Inbound::Close) => (Phase::Closed, Next::Closed),
        },
    }
}

/// Dropping the stream: the new phase, and whether the host's callbacks must
/// be detached and its connection closed now.
pub open spec fn release_step(phase: Phase) -> (Phase, bool) {
    (Phase::Closed, phase == Phase::Open)
}

/// Polls `readies` one after another from `phase`; the yields in order.
pub open spec fn poll_all(phase: Phase, readies: Seq<Option<Inbound>>) -> Seq<Next>
    decreases readies.len(),
{
    if readies.len() == 0 {
        Seq::empty()
    } else {
        let (p, n) = poll_step(phase, readies[0]);
        seq![n].add(poll_all(p, readies.drop_first()))
    }
}

pub open spec fn is_terminal(n: Next) -> bool {
    n is Errored || n is Closed
}

/// The bookkeeping of a live WebSocket stream of the embedded backend: the
/// host object and its callbacks stand beside it, and it decides what each
/// callback and each poll amounts to.
pub struct WsStream {
    phase: Phase,
}

impl View for WsStream {
    type V = Phase;

    closed spec fn view(&self) -> Phase {
        self.phase
    }
}

impl WsStream {
    /// Decides the handshake by the first of the open, close and error
    /// callbacks to fire: only "open" yields a stream.
    pub fn connect(first: Signal) -> (r: Result<WsStream, Error>)
        ensures
            first == Signal::Open <==> r is Ok,
            r matches Ok(s) ==> s@ == Phase::Open,
            r matches Err(e) ==> e is Download,
    {
        match first {
            Signal::Open => Ok(WsStream { phase: Phase::Open }),
            Signal::Close => Err(
                Error::Download { detail: String::from_str("connection closed before it opened") },
            ),
            Signal::Error => Err(
                Error::Download { detail: String::from_str("connection failed before it opened") },
            ),
        }
    }

    pub fn phase(&self) -> (r: Phase)
        ensures
            r == self@,
    {
        self.phase
    }

    /// Turns what the channels had ready into the stream's next item.
    pub fn poll_next(&mut self, ready: Option<Inbound>) -> (r: Next)
        ensures
            (final(self)@, r) == poll_step(old(self)@, ready),
    {
        match self.phase {
            Phase::Closed => Next::End,
            Phase::Open => match ready {
                None => Next::Pending,
                Some(Inbound::Message(m)) => Next::Message(m),
                Some(Inbound::Error) => {
                    self.phase = Phase::Closed;
                    Next::Errored
                },
                Some(Inbound::Close) => {
                    self.phase = Phase::Closed;
                    Next::Closed
                },
            },
        }
    }

    /// The text to hand to the host for `item`; only an open stream sends.
    pub fn start_send(&self, item: Message) -> (r: Result<String, WsError>)
        ensures
            self@ == Phase::Open ==> match item {
                Message::Text(t) => r == Ok::<String, WsError>(t),
            },
            self@ == Phase::Closed ==> r == Err::<String, WsError>(WsError::NotOpen),
    {
        match self.phase {
            Phase::Open => match item {
                Message::Text(t) => Ok(t),
            },
            Phase::Closed => Err(WsError::NotOpen),
        }
    }

    /// Closes the stream: true when the host's connection is to be closed
    /// now, which happens once at most, here or on release.
    pub fn close(&mut self) -> (r: bool)
        ensures
            (final(self)@, r) == release_step(old(self)@),
    {
        let was_open = self.phase == Phase::Open;
        self.phase = Phase::Closed;
        was_open
    }

    /// Called as the stream is dropped: true when the host's callbacks are to
    /// be detached and its connection closed, which happens once at most.
    pub fn release(&mut self) -> (r: bool)
        ensures
            (final(self)@, r) == release_step(old(self)@),
    {
        let was_open = self.phase == Phase::Open;
        self.phase = Phase::Closed;
        was_open
    }
}

/// Once the stream has yielded an error or a close, every later poll yields
/// the end of the stream, so such an event is delivered once.
pub proof fn lemma_terminal_delivered_once(phase: Phase, ready: Option<Inbound>, later: Seq<Option<Inbound>>)
    requires
        is_terminal(poll_step(phase, ready).1),
    ensures
        forall|i: int| 0 <= i < later.len() ==> #[trigger] poll_all(poll_step(phase, ready).0, later)[i] is End,
{
    lemma_closed_stays_ended(later);
}

/// A closed stream yields only the end of the stream, whatever is ready.
pub proof fn lemma_closed_stays_ended(later: Seq<Option<Inbound>>)
    ensures
        poll_all(Phase::Closed, later).len() == later.len(),
        forall|i: int| 0 <= i < later.len() ==> #[trigger] poll_all(Phase::Closed, later)[i] is End,
    decreases later.len(),
{
    if later.len() > 0 {
        lemma_closed_stays_ended(later.drop_first());
        let rest = poll_all(Phase::Closed, later.drop_first());
        assert forall|i: int| 0 <= i < later.len() implies #[trigger] poll_all(Phase::Closed, later)[i] is End by {
            if i > 0 {
                assert(poll_all(Phase::Closed, later)[i] == rest[i - 1]);
            }
        }
    }
}

/// While the stream is open and only messages arrive, they come out in the
/// order they arrived, each once.
pub proof fn lemma_messages_in_order(msgs: Seq<Message>)
    ensures
        poll_all(Phase::Open, msgs.map_values(|m: Message| Some(Inbound::Message(m))))
            == msgs.map_values(|m: Message| Next::Message(m)),
    decreases msgs.len(),
{
    let readies = msgs.map_values(|m: Message| Some(Inbound::Message(m)));
    if msgs.len() > 0 {
        lemma_messages_in_order(msgs.drop_first());
        assert(readies.drop_first() =~= msgs.drop_first().map_values(
            |m: Message| Some(Inbound::Message(m)),
        ));
        assert(poll_all(Phase::Open, readies) =~= msgs.map_values(|m: Message| Next::Message(m)));
    } else {
        assert(poll_all(Phase::Open, readies) =~= msgs.map_values(|m: Message| Next::Message(m)));
    }
}

/// The yields of an open stream that receives the messages `msgs`, then an
/// error or a close, then anything: each message once and in order, the
/// ending once, and the end of the stream on every later poll.
pub proof fn lemma_stream_delivery(msgs: Seq<Message>, ending: Inbound, later: Seq<Option<Inbound>>)
    requires
        !(ending is Message),
    ensures
        poll_all(
            Phase::Open,
            msgs.map_values(|m: Message| Some(Inbound::Message(m))) + seq![Some(ending)] + later,
        ) == msgs.map_values(|m: Message| Next::Message(m)) + seq![
            if ending is Error { Next::Errored } else { Next::Closed },
        ] + Seq::new(later.len(), |i: int| Next::End),
    decreases msgs.len(),
{
    let readies = msgs.map_values(|m: Message| Some(Inbound::Message(m))) + seq![Some(ending)] + later;
    let last = if ending is Error { Next::Errored } else { Next::Closed };
    let ends = Seq::new(later.len(), |i: int| Next::End);
    if msgs.len() == 0 {
        lemma_closed_stays_ended(later);
        assert(readies.drop_first() =~= later);
        assert(poll_all(Phase::Closed, later) =~= ends);
        assert(poll_all(Phase::Open, readies) =~= msgs.map_values(|m: Message| Next::Message(m))
            + seq![last] + ends);
    } else {
        lemma_stream_delivery(msgs.drop_first(), ending, later);
        assert(readies.drop_first() =~= msgs.drop_first().map_values(
            |m: Message| Some(Inbound::Message(m)),
        ) + seq![Some(ending)] + later);
        assert(poll_all(Phase::Open, readies) =~= msgs.map_values(|m: Message| Next::Message(m))
            + seq![last] + ends);
    }
}

/// Releasing a stream a second time asks for nothing, and a released stream
/// yields only the end of the stream: host resources are let go once.
pub proof fn lemma_release_once(phase: Phase, later: Seq<Option<Inbound>>)
    ensures
        !release_step(release_step(phase).0).1,
        release_step(phase).1 == (phase == Phase::Open),
        forall|i: int| 0 <= i < later.len() ==> #[trigger] poll_all(release_step(phase).0, later)[i] is End,
{
    lemma_closed_stays_ended(later);
}

} // verus!
