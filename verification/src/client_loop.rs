//! One session per connection. The handle is what the registry keeps of a
//! live session; the read half turns each frame that arrives into what the
//! registry is told, the write half sends what the registry hands it. The
//! socket itself is driven outside this library.

use crate::server_loop::{ToServer, ToServerView};
use vstd::prelude::*;

verus! {

/// How many messages the mailbox of a session holds.
pub const MAILBOX_CAPACITY: usize = 64;

/// What the registry sends to a session.
pub enum ToClient {
    /// A text to send to the station as one text frame.
    Message(String),
}

impl View for ToClient {
    type V = Seq<char>;

    open spec fn view(&self) -> Seq<char> {
        match self {
            ToClient::Message(text) => text@,
        }
    }
}

impl ToClient {
    /// The text of the one text frame that carries the message.
    pub fn into_text(self) -> (r: String)
        ensures
            r@ == self@,
    {
        match self {
            ToClient::Message(text) => text,
        }
    }
}

/// What the acceptor knows of a connection when the session is born.
pub struct ClientInfo<L> {
    /// The peer's socket address, as text.
    pub ip: String,
    pub id: u64,
    /// The station's name, as the request path gave it.
    pub name: String,
    /// The sending side of the session's mailbox, and whatever else has to
    /// live exactly as long as the session.
    pub link: L,
}

/// A live session as the registry keeps it. The registry finds it by `id`
/// alone: the name and the address are carried for the record. Whoever lets
/// go of the handle lets go of `link`, which ends the session's I/O.
pub struct ClientHandle<L> {
    pub id: u64,
    /// The peer's socket address, as text.
    pub ip: String,
    /// The station's name.
    pub name: String,
    /// The sending side of the session's mailbox, and whatever else has to
    /// live exactly as long as the session.
    pub link: L,
}

impl<L> ClientHandle<L> {
    /// The handle of the session that `client_info` describes.
    pub fn spawn(client_info: ClientInfo<L>) -> (r: ClientHandle<L>)
        ensures
            r.id == client_info.id,
            r.ip == client_info.ip,
            r.name == client_info.name,
            r.link == client_info.link,
    {
        ClientHandle {
            id: client_info.id,
            ip: client_info.ip,
            name: client_info.name,
            link: client_info.link,
        }
    }

    /// The message for the session's mailbox that carries `text`, and the
    /// link to send it on.
    pub fn send(&self, text: String) -> (r: (&L, ToClient))
        ensures
            *r.0 == self.link,
            r.1@ == text@,
    {
        (&self.link, ToClient::Message(text))
    }
}

/// What the read half of a session got from the socket.
pub enum Incoming {
    /// A text frame.
    Text(String),
    /// A binary frame.
    Binary,
    /// A ping.
    Ping,
    /// A pong.
    Pong,
    /// A close frame.
    Close,
    /// A raw or continuation frame.
    Frame,
    /// The transport failed.
    Failed,
    /// The stream ended without a close frame.
    Finished,
}

/// What arrived, in contracts.
pub enum IncomingView {
    Text(Seq<char>),
    Binary,
    Ping,
    Pong,
    Close,
    Frame,
    Failed,
    Finished,
}

impl View for Incoming {
    type V = IncomingView;

    open spec fn view(&self) -> IncomingView {
        match self {
            Incoming::Text(text) => IncomingView::Text(text@),
            Incoming::Binary => IncomingView::Binary,
            Incoming::Ping => IncomingView::Ping,
            Incoming::Pong => IncomingView::Pong,
            Incoming::Close => IncomingView::Close,
            Incoming::Frame => IncomingView::Frame,
            Incoming::Failed => IncomingView::Failed,
            Incoming::Finished => IncomingView::Finished,
        }
    }
}

impl IncomingView {
    /// What the registry is told of it by session `id`, if anything: a text
    /// frame is forwarded, and the end of the session is announced, however
    /// it came about. Other frames concern the transport only.
    pub open spec fn forward(self, id: u64) -> Option<ToServerView> {
        match self {
            IncomingView::Text(text) => Some(ToServerView::ClientMessage(id, text)),
            IncomingView::Close | IncomingView::Failed | IncomingView::Finished => Some(
                ToServerView::ClientGone(id),
            ),
            _ => None,
        }
    }

    /// Whether the session goes on reading after it.
    pub open spec fn proceeds(self) -> bool {
        !(self is Close || self is Failed || self is Finished)
    }
}

/// What the read half does with what arrived.
pub struct ReadStep<L> {
    /// What the registry is told, if anything.
    pub forward: Option<ToServer<L>>,
    /// Whether the session goes on reading.
    pub proceed: bool,
}

/// Decides on one arrival at session `id`.
pub fn tcp_read<L>(id: u64, incoming: Incoming) -> (r: ReadStep<L>)
    ensures
        r.proceed == incoming@.proceeds(),
        match r.forward {
            Some(msg) => incoming@.forward(id) == Some(msg@),
            None => incoming@.forward(id) is None,
        },
{
    match incoming {
        Incoming::Text(text) => ReadStep {
            forward: Some(ToServer::ClientMessage(id, text)),
            proceed: true,
        },
        Incoming::Close | Incoming::Failed | Incoming::Finished => ReadStep {
            forward: Some(ToServer::ClientGone(id)),
            proceed: false,
        },
        Incoming::Binary | Incoming::Ping | Incoming::Pong | Incoming::Frame => ReadStep {
            forward: None,
            proceed: true,
        },
    }
}

/// The text frame that the write half sends for what the mailbox yields: the
/// text of a message, or nothing where the mailbox is closed.
pub open spec fn frame(yielded: Option<ToClient>) -> Option<Seq<char>> {
    match yielded {
        Some(msg) => Some(msg@),
        None => None,
    }
}

/// Decides on one message from the mailbox of a session: the text frame to
/// send, or the end of the write half where the mailbox is closed.
pub fn tcp_write(msg: Option<ToClient>) -> (r: Option<String>)
    ensures
        match r {
            Some(text) => frame(msg) == Some(text@),
            None => frame(msg) is None,
        },
{
    match msg {
        Some(msg) => Some(msg.into_text()),
        None => None,
    }
}

/// The frames that the write half sends while the mailbox yields one thing
/// after the other: it sends one frame for each message and stops where the
/// mailbox is closed.
pub open spec fn frames(yielded: Seq<Option<ToClient>>) -> Seq<Seq<char>>
    decreases yielded.len(),
{
    if yielded.len() == 0 {
        Seq::empty()
    } else {
        match frame(yielded[0]) {
            Some(text) => seq![text] + frames(yielded.skip(1)),
            None => Seq::empty(),
        }
    }
}

/// As long as the mailbox is open, what the write half sends is what the
/// mailbox yields: one frame for each message, with the text of that
/// message, in the same order. Nothing is merged, split, doubled or dropped.
pub proof fn lemma_frames_follow_mailbox(yielded: Seq<Option<ToClient>>)
    requires
        forall|i: int| 0 <= i < yielded.len() ==> (#[trigger] yielded[i]) is Some,
    ensures
        frames(yielded).len() == yielded.len(),
        forall|i: int|
            0 <= i < yielded.len() ==> #[trigger] frames(yielded)[i] == yielded[i]->Some_0@,
    decreases yielded.len(),
{
    if yielded.len() > 0 {
        let rest = yielded.skip(1);
        assert forall|i: int| 0 <= i < rest.len() implies (#[trigger] rest[i]) is Some by {
            assert(rest[i] == yielded[i + 1]);
        }
        lemma_frames_follow_mailbox(rest);
        let first = yielded[0]->Some_0@;
        assert(frames(yielded) == seq![first] + frames(rest));
        assert forall|i: int| 0 <= i < yielded.len() implies #[trigger] frames(yielded)[i]
            == yielded[i]->Some_0@ by {
            if i > 0 {
                assert(frames(yielded)[i] == frames(rest)[i - 1]);
                assert(rest[i - 1] == yielded[i]);
            }
        }
    }
}

} // verus!
