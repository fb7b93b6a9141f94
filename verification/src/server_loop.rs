//! The registry: the one owner of the live sessions. It takes what the
//! sessions and the acceptor tell it, one message at a time, and says what
//! follows: a session to let go of, or a call to hand to the dispatcher. It
//! also mints the session ids.

use crate::client_loop::{ClientHandle, ToClient};
use std::collections::HashMap;
use vstd::prelude::*;

verus! {

broadcast use vstd::std_specs::hash::group_hash_axioms;

/// What the registry is told.
pub enum ToServer<L> {
    /// The acceptor admitted a session.
    NewClient(ClientHandle<L>),
    /// The session with this id ended.
    ClientGone(u64),
    /// The session with this id received this text.
    ClientMessage(u64, String),
}

/// What the registry is told, in contracts.
pub enum ToServerView {
    NewClient(u64),
    ClientGone(u64),
    ClientMessage(u64, Seq<char>),
}

impl<L> View for ToServer<L> {
    type V = ToServerView;

    open spec fn view(&self) -> ToServerView {
        match self {
            ToServer::NewClient(handle) => ToServerView::NewClient(handle.id),
            ToServer::ClientGone(id) => ToServerView::ClientGone(*id),
            ToServer::ClientMessage(id, text) => ToServerView::ClientMessage(*id, text@),
        }
    }
}

/// What follows from a message to the registry.
pub enum Reaction<L> {
    /// The registry is up to date. It hands out the handle that left it, if
    /// one did: letting go of it ends that session's I/O.
    Settled(Option<ClientHandle<L>>),
    /// The text is a call of the live session `id`: the dispatcher has to
    /// see it, and its answer goes to `Server::deliver` under the same id.
    Dispatch { id: u64, message: String },
}

/// The sessions that are live after the registry took `msg`.
pub open spec fn sessions_after<L>(
    sessions: Map<u64, ClientHandle<L>>,
    msg: ToServer<L>,
) -> Map<u64, ClientHandle<L>> {
    match msg {
        ToServer::NewClient(handle) => sessions.insert(handle.id, handle),
        ToServer::ClientGone(id) => sessions.remove(id),
        ToServer::ClientMessage(_, _) => sessions,
    }
}

/// The handle that leaves the registry when it takes `msg`, if one does.
pub open spec fn leaving<L>(sessions: Map<u64, ClientHandle<L>>, msg: ToServer<L>) -> Option<
    ClientHandle<L>,
> {
    match msg {
        ToServer::NewClient(handle) => if sessions.contains_key(handle.id) {
            Some(sessions[handle.id])
        } else {
            None
        },
        ToServer::ClientGone(id) => if sessions.contains_key(id) {
            Some(sessions[id])
        } else {
            None
        },
        ToServer::ClientMessage(_, _) => None,
    }
}

/// The call that the registry hands to the dispatcher when it takes `msg`:
/// the session and the text, where `msg` is a text of a live session.
pub open spec fn dispatched<L>(sessions: Map<u64, ClientHandle<L>>, msg: ToServerView) -> Option<
    (u64, Seq<char>),
> {
    match msg {
        ToServerView::ClientMessage(id, text) => if sessions.contains_key(id) {
            Some((id, text))
        } else {
            None
        },
        _ => None,
    }
}

/// Where the answer to a call of session `id` goes: to the mailbox of that
/// session, if it is live, else nowhere.
pub open spec fn delivered<L>(sessions: Map<u64, ClientHandle<L>>, id: u64, answer: Seq<char>)
    -> Option<(u64, Seq<char>)> {
    if sessions.contains_key(id) {
        Some((id, answer))
    } else {
        None
    }
}

/// The registry of live sessions.
pub struct Server<L> {
    clients: HashMap<u64, ClientHandle<L>>,
}

impl<L> Server<L> {
    /// The registry's invariant: every handle is kept under its own id.
    pub closed spec fn wf(&self) -> bool {
        forall|id: u64| #[trigger] self.clients@.contains_key(id) ==> self.clients@[id].id == id
    }

    /// The live sessions, each under its id.
    pub closed spec fn sessions(&self) -> Map<u64, ClientHandle<L>> {
        self.clients@
    }

    /// A registry without sessions.
    pub fn new() -> (r: Server<L>)
        ensures
            r.wf(),
            r.sessions() == Map::<u64, ClientHandle<L>>::empty(),
            r.sessions().dom().finite(),
    {
        Server { clients: HashMap::new() }
    }

    /// A registry holds finitely many sessions.
    pub proof fn lemma_sessions_finite(self)
        ensures
            self.sessions().dom().finite(),
    {
    }

    /// How many sessions are live. They are finitely many.
    pub fn len(&self) -> (r: usize)
        ensures
            r == self.sessions().len(),
            self.sessions().dom().finite(),
    {
        self.clients.len()
    }

    /// Whether the session `id` is live.
    pub fn is_connected(&self, id: u64) -> (r: bool)
        ensures
            r == self.sessions().contains_key(id),
    {
        self.clients.contains_key(&id)
    }

    /// Takes one message. A new session is kept under its id; a session that
    /// ended is let go of, and so is one whose id a new session takes. A text
    /// of a live session becomes a call for the dispatcher; a text of any
    /// other session is dropped.
    pub fn handle_message(&mut self, msg: ToServer<L>) -> (r: Reaction<L>)
        requires
            old(self).wf(),
        ensures
            final(self).wf(),
            final(self).sessions().dom().finite(),
            final(self).sessions() == sessions_after(old(self).sessions(), msg),
            match r {
                Reaction::Settled(handle) => handle == leaving(old(self).sessions(), msg)
                    && dispatched(old(self).sessions(), msg@) is None,
                Reaction::Dispatch { id, message } => dispatched(old(self).sessions(), msg@)
                    == Some((id, message@)),
            },
    {
        match msg {
            ToServer::NewClient(client_handle) => {
                let id = client_handle.id;
                let previous = self.clients.insert(id, client_handle);
                Reaction::Settled(previous)
            },
            ToServer::ClientGone(id) => {
                let gone = self.clients.remove(&id);
                Reaction::Settled(gone)
            },
            ToServer::ClientMessage(id, message) => {
                if self.clients.contains_key(&id) {
                    Reaction::Dispatch { id, message }
                } else {
                    Reaction::Settled(None)
                }
            },
        }
    }

    /// Addresses the dispatcher's answer to the session that sent the call:
    /// the session's handle and the message for its mailbox. The answer is
    /// dropped where the session is no longer live.
    pub fn deliver(&self, id: u64, response: String) -> (r: Option<(&L, ToClient)>)
        requires
            self.wf(),
        ensures
            match r {
                Some((link, msg)) => delivered(self.sessions(), id, response@) == Some((id, msg@))
                    && *link == self.sessions()[id].link && self.sessions()[id].id == id,
                None => delivered(self.sessions(), id, response@) is None,
            },
    {
        match self.clients.get(&id) {
            Some(handle) => Some(handle.send(response)),
            None => None,
        }
    }
}

/// The source of session ids: each id is handed out once, in rising order.
pub struct SessionIds {
    next: u64,
}

impl SessionIds {
    /// The id that the next mint hands out.
    pub closed spec fn upcoming(self) -> u64 {
        self.next
    }

    /// The source after `n` more ids were minted.
    pub closed spec fn after(self, n: nat) -> SessionIds
        recommends
            self.upcoming() + n <= u64::MAX,
    {
        SessionIds { next: (self.next + n) as u64 }
    }

    /// A source that has minted nothing yet: its first id is 0.
    pub fn new() -> (r: SessionIds)
        ensures
            r.upcoming() == 0,
    {
        SessionIds { next: 0 }
    }

    /// Mints an id. It is `None` only when the ids of 64 bits are used up.
    pub fn next_id(&mut self) -> (r: Option<u64>)
        ensures
            old(self).upcoming() < u64::MAX ==> r == Some(old(self).upcoming()) && *final(self)
                == old(self).after(1) && final(self).upcoming() == old(self).upcoming() + 1,
            old(self).upcoming() == u64::MAX ==> r is None && *final(self) == *old(self),
    {
        if self.next == u64::MAX {
            None
        } else {
            let id = self.next;
            self.next = id + 1;
            Some(id)
        }
    }

    /// Minting `n` ids moves the upcoming id up by `n`.
    pub proof fn lemma_after(self, n: nat)
        requires
            self.upcoming() + n <= u64::MAX,
        ensures
            self.after(n).upcoming() == self.upcoming() + n,
            self.after(0) == self,
            n > 0 ==> self.after(n) == self.after((n - 1) as nat).after(1),
    {
    }
}

/// The calls that the registry hands to the dispatcher while it takes `msgs`
/// one after the other, in the order in which it hands them over.
pub open spec fn dispatches<L>(sessions: Map<u64, ClientHandle<L>>, msgs: Seq<ToServer<L>>) -> Seq<
    (u64, Seq<char>),
>
    decreases msgs.len(),
{
    if msgs.len() == 0 {
        Seq::empty()
    } else {
        let rest = dispatches(sessions_after(sessions, msgs[0]), msgs.skip(1));
        match dispatched(sessions, msgs[0]@) {
            Some(call) => seq![call] + rest,
            None => rest,
        }
    }
}

/// The texts that session `id` sends while the registry takes `msgs`, in the
/// order in which they arrive, as far as the session is live when they do.
pub open spec fn inbound<L>(sessions: Map<u64, ClientHandle<L>>, msgs: Seq<ToServer<L>>, id: u64)
    -> Seq<Seq<char>>
    decreases msgs.len(),
{
    if msgs.len() == 0 {
        Seq::empty()
    } else {
        let rest = inbound(sessions_after(sessions, msgs[0]), msgs.skip(1), id);
        match msgs[0]@ {
            ToServerView::ClientMessage(from, text) => if from == id && sessions.contains_key(id) {
                seq![text] + rest
            } else {
                rest
            },
            _ => rest,
        }
    }
}

/// The texts among `calls` that belong to session `id`, in order.
pub open spec fn calls_of(calls: Seq<(u64, Seq<char>)>, id: u64) -> Seq<Seq<char>>
    decreases calls.len(),
{
    if calls.len() == 0 {
        Seq::empty()
    } else if calls[0].0 == id {
        seq![calls[0].1] + calls_of(calls.skip(1), id)
    } else {
        calls_of(calls.skip(1), id)
    }
}

/// The calls of each session reach the dispatcher in the order in which the
/// session sent them: none is lost, doubled or overtaken.
pub proof fn lemma_session_order<L>(
    sessions: Map<u64, ClientHandle<L>>,
    msgs: Seq<ToServer<L>>,
    id: u64,
)
    ensures
        calls_of(dispatches(sessions, msgs), id) == inbound(sessions, msgs, id),
    decreases msgs.len(),
{
    if msgs.len() > 0 {
        let next = sessions_after(sessions, msgs[0]);
        let rest = dispatches(next, msgs.skip(1));
        lemma_session_order(next, msgs.skip(1), id);
        match dispatched(sessions, msgs[0]@) {
            Some(call) => {
                let all = seq![call] + rest;
                assert(all.skip(1) =~= rest);
                assert(all[0] == call);
            },
            None => {},
        }
    }
}

/// What leaves for the mailboxes while the registry takes one turn after
/// the other, in the order in which it leaves. A turn is a message that the
/// registry takes and, where the message is a call that it hands over, what
/// the dispatcher answered, if it answered at all. The registry takes the
/// answer to one call before it takes the next message.
pub open spec fn outbound<L>(
    sessions: Map<u64, ClientHandle<L>>,
    turns: Seq<(ToServer<L>, Option<Seq<char>>)>,
) -> Seq<(u64, Seq<char>)>
    decreases turns.len(),
{
    if turns.len() == 0 {
        Seq::empty()
    } else {
        let (msg, answer) = turns[0];
        let after = sessions_after(sessions, msg);
        let rest = outbound(after, turns.skip(1));
        match (dispatched(sessions, msg@), answer) {
            (Some((id, _)), Some(text)) => match delivered(after, id, text) {
                Some(sent) => seq![sent] + rest,
                None => rest,
            },
            _ => rest,
        }
    }
}

/// The answers to the calls of session `id` over the same turns, in the
/// order of the calls: one for each text that the session sent while it was
/// live and that the dispatcher answered.
pub open spec fn answers<L>(
    sessions: Map<u64, ClientHandle<L>>,
    turns: Seq<(ToServer<L>, Option<Seq<char>>)>,
    id: u64,
) -> Seq<Seq<char>>
    decreases turns.len(),
{
    if turns.len() == 0 {
        Seq::empty()
    } else {
        let (msg, answer) = turns[0];
        let rest = answers(sessions_after(sessions, msg), turns.skip(1), id);
        match (msg@, answer) {
            (ToServerView::ClientMessage(from, _), Some(text)) => if from == id
                && sessions.contains_key(id) {
                seq![text] + rest
            } else {
                rest
            },
            _ => rest,
        }
    }
}

/// What leaves for the mailbox of a session are the answers to the calls of
/// that session, in the order of the calls: no answer overtakes an earlier
/// one, none is doubled, none is lost, and none goes to another session.
pub proof fn lemma_answer_order<L>(
    sessions: Map<u64, ClientHandle<L>>,
    turns: Seq<(ToServer<L>, Option<Seq<char>>)>,
    id: u64,
)
    ensures
        calls_of(outbound(sessions, turns), id) == answers(sessions, turns, id),
    decreases turns.len(),
{
    if turns.len() > 0 {
        let (msg, answer) = turns[0];
        let after = sessions_after(sessions, msg);
        let rest = outbound(after, turns.skip(1));
        lemma_answer_order(after, turns.skip(1), id);
        match (dispatched(sessions, msg@), answer) {
            (Some((from, _)), Some(text)) => {
                assert(after == sessions);
                let sent = (from, text);
                assert(delivered(after, from, text) == Some(sent));
                let all = seq![sent] + rest;
                assert(all.skip(1) =~= rest);
                assert(all[0] == sent);
            },
            _ => {},
        }
    }
}

/// While one live session sends call after call and each is answered,
/// exactly the answers leave, all for that session, the first for the first
/// call and so on.
pub proof fn lemma_steady_session<L>(
    sessions: Map<u64, ClientHandle<L>>,
    turns: Seq<(ToServer<L>, Option<Seq<char>>)>,
    id: u64,
)
    requires
        sessions.contains_key(id),
        forall|i: int|
            0 <= i < turns.len() ==> (#[trigger] turns[i]).0 is ClientMessage
                && turns[i].0->ClientMessage_0 == id && turns[i].1 is Some,
    ensures
        outbound(sessions, turns).len() == turns.len(),
        forall|i: int|
            0 <= i < turns.len() ==> #[trigger] outbound(sessions, turns)[i] == (
                id,
                turns[i].1->Some_0,
            ),
    decreases turns.len(),
{
    if turns.len() > 0 {
        let rest = turns.skip(1);
        assert(turns[0].0 is ClientMessage);
        assert(sessions_after(sessions, turns[0].0) == sessions);
        assert forall|i: int| 0 <= i < rest.len() implies (#[trigger] rest[i]).0 is ClientMessage
            && rest[i].0->ClientMessage_0 == id && rest[i].1 is Some by {
            assert(rest[i] == turns[i + 1]);
        }
        lemma_steady_session(sessions, rest, id);
        let sent = (id, turns[0].1->Some_0);
        assert(outbound(sessions, turns) == seq![sent] + outbound(sessions, rest));
        assert forall|i: int| 0 <= i < turns.len() implies #[trigger] outbound(sessions, turns)[i]
            == (id, turns[i].1->Some_0) by {
            if i > 0 {
                assert(outbound(sessions, turns)[i] == outbound(sessions, rest)[i - 1]);
                assert(rest[i - 1] == turns[i]);
            }
        }
    }
}

/// A call is handed to the dispatcher only for a live session, and handing
/// it over leaves the registry as it is: the answer finds the session that
/// sent the call, unless that session ends in between.
pub proof fn lemma_answer_finds_caller<L>(
    sessions: Map<u64, ClientHandle<L>>,
    msg: ToServer<L>,
    id: u64,
    text: Seq<char>,
)
    requires
        dispatched(sessions, msg@) == Some((id, text)),
    ensures
        msg@ == ToServerView::ClientMessage(id, text),
        sessions_after(sessions, msg) == sessions,
        sessions.contains_key(id),
{
}

/// Letting go of a session twice is letting go of it once: the second notice
/// that a session ended leaves the registry as it is, and no handle leaves.
pub proof fn lemma_client_gone_idempotent<L>(sessions: Map<u64, ClientHandle<L>>, id: u64)
    ensures
        sessions_after(sessions_after(sessions, ToServer::ClientGone(id)), ToServer::ClientGone(id))
            == sessions_after(sessions, ToServer::ClientGone(id)),
        leaving(sessions_after(sessions, ToServer::ClientGone(id)), ToServer::<L>::ClientGone(id))
            is None,
        !sessions_after(sessions, ToServer::ClientGone(id)).contains_key(id),
{
    assert(sessions.remove(id).remove(id) =~= sessions.remove(id));
}

/// Ids rise strictly: of two ids that one source mints, the later is the
/// greater, so no id is handed out twice.
pub proof fn lemma_ids_strictly_increase(ids: SessionIds, earlier: nat, later: nat)
    requires
        earlier < later,
        ids.upcoming() + later < u64::MAX,
    ensures
        ids.after(earlier).upcoming() < ids.after(later).upcoming(),
{
    ids.lemma_after(earlier);
    ids.lemma_after(later);
}

} // verus!
