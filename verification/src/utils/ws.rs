//! Streaming sessions.
//!
//! A streaming session carries the output of a command, line by line, to a
//! connection that stays open while the command runs.
//!
//! A session is opened in the registry, under a random identifier, when a peer
//! asks for a connection. The first frame on the connection tells the peer the
//! identifier; the peer names it in the request whose output it wants to see.
//! From then on the command queues its lines in the session, and the
//! connection, in rounds a tenth of a second apart, sends on what is queued.
//! Between the rounds a ping goes out every five seconds. Once the session is
//! marked as over, the next round sends the lines that still wait and the
//! close frame, stops both timers, and takes the session out of the registry.
//! A session whose command has ended is retired: it leaves the open sessions
//! at once, and waits for that round of its connection.
//! A session that is never closed this way is given up when it is two hours
//! old: it is marked as over and leaves the open sessions, so that no output
//! can be streamed into it any more, but it waits for its connection, which in
//! its next round sends the lines that are still queued and the close frame.
//!
//! The registry belongs to one owner at a time. Where several threads work
//! with it, the caller keeps it behind a lock and holds the lock for one call.

use std::collections::HashMap;
use vstd::prelude::*;
use vstd::std_specs::iter::IteratorSpec;

use crate::errors::FwcError;
use crate::foreign::{hyphenated, random_uuid, uuid_text};
use crate::text::{chars_of, string_of, texts};
use crate::utils::cmd::StreamStep;

verus! {

/// The age in milliseconds beyond which a session is given up.
pub const WS_AGE_THRESHOLD: u64 = 7_200_000;

/// The number of sessions that can be open at one time.
pub const WS_MAX_CONCURRENT: usize = 256;

/// The time in milliseconds between two rounds of sending lines on.
pub const POLLING_INTERVAL: u64 = 100;

/// The time in milliseconds between two keep-alive pings.
pub const HEARTBEAT_INTERVAL: u64 = 5_000;

/// The status of a close frame that ends a connection in the ordinary way.
pub const CLOSE_NORMAL: u16 = 1000;

/// What the close frame of a session that is over says.
pub const CLOSE_DESCRIPTION: &'static str = "Closing websocket connection";

/// What a keep-alive ping carries.
pub const PING_PAYLOAD: &'static str = "PING\n";

/// Why a connection is closed.
pub struct CloseReason {
    pub code: u16,
    pub description: Option<String>,
}

/// What the peer of a connection has sent.
pub enum WsMessage {
    Ping(Vec<u8>),
    Close(Option<CloseReason>),
    /// Anything else: text, binary data, a pong, a continuation.
    Other,
}

/// What is sent to the peer of a connection.
pub enum WsFrame {
    Text(String),
    Ping(String),
    Pong(Vec<u8>),
    Close(Option<CloseReason>),
}

/// A close reason as the contracts speak of it.
pub struct Reason {
    pub code: u16,
    pub description: Option<Seq<char>>,
}

/// A frame as the contracts speak of it.
pub enum Frame {
    Text(Seq<char>),
    Ping(Seq<char>),
    Pong(Seq<u8>),
    Close(Option<Reason>),
}

impl View for CloseReason {
    type V = Reason;

    open spec fn view(&self) -> Reason {
        Reason {
            code: self.code,
            description: match self.description {
                Some(text) => Some(text@),
                None => None,
            },
        }
    }
}

impl View for WsFrame {
    type V = Frame;

    open spec fn view(&self) -> Frame {
        match self {
            WsFrame::Text(text) => Frame::Text(text@),
            WsFrame::Ping(text) => Frame::Ping(text@),
            WsFrame::Pong(bytes) => Frame::Pong(bytes@),
            WsFrame::Close(reason) => Frame::Close(
                match reason {
                    Some(r) => Some(r@),
                    None => None,
                },
            ),
        }
    }
}

/// What each frame in `v` is.
pub open spec fn frames(v: Seq<WsFrame>) -> Seq<Frame> {
    v.map_values(|f: WsFrame| f@)
}

/// The close frame of a session that is over.
pub open spec fn closing_frame() -> Frame {
    Frame::Close(Some(Reason { code: CLOSE_NORMAL, description: Some(CLOSE_DESCRIPTION@) }))
}

/// One text frame for each line.
pub open spec fn text_frames(lines: Seq<Seq<char>>) -> Seq<Frame> {
    lines.map_values(|l: Seq<char>| Frame::Text(l))
}

/// What a connection sends in one round of sending lines on: the lines that
/// wait, oldest first, and then the close frame if the session is over. The
/// session is looked for among the open ones first, and then among those
/// given up for their age, which are all over. A session that is in neither
/// place is over and has nothing left to send.
pub open spec fn polled_frames(
    map: Map<u128, Session>,
    leaving: Map<u128, Session>,
    id: u128,
) -> Seq<Frame> {
    if map.contains_key(id) {
        if map[id].finished {
            text_frames(map[id].lines).push(closing_frame())
        } else {
            text_frames(map[id].lines)
        }
    } else if leaving.contains_key(id) {
        text_frames(leaving[id].lines).push(closing_frame())
    } else {
        seq![closing_frame()]
    }
}

/// Whether a round of sending lines on ends the connection.
pub open spec fn poll_closes(map: Map<u128, Session>, id: u128) -> bool {
    !map.contains_key(id) || map[id].finished
}

/// The open sessions after a round of sending lines on: no line waits in the
/// session any more, and a session that is over has left the registry.
pub open spec fn polled_map(map: Map<u128, Session>, id: u128) -> Map<u128, Session> {
    if !map.contains_key(id) {
        map
    } else if map[id].finished {
        map.remove(id)
    } else {
        map.insert(id, Session { lines: Seq::<Seq<char>>::empty(), ..map[id] })
    }
}

/// The sessions given up for their age after a round of sending lines on: a
/// session that is not open, and so was closed from here, waits no longer.
pub open spec fn polled_leaving(
    map: Map<u128, Session>,
    leaving: Map<u128, Session>,
    id: u128,
) -> Map<u128, Session> {
    if map.contains_key(id) {
        leaving
    } else {
        leaving.remove(id)
    }
}

/// The connection that carries a streaming session to its peer.
pub struct FwcAgentWs {
    /// The identifier of the session.
    pub id: u128,
    /// Whether the timer of the keep-alive pings runs.
    pub heart_beat_running: bool,
    /// Whether the timer of the rounds of sending lines on runs.
    pub polling_running: bool,
}

/// What a streaming session holds.
pub struct WsData {
    /// When the session was opened, in milliseconds since the Unix epoch.
    pub created_at: u64,
    /// The lines of output that have not been sent on yet, oldest first.
    pub lines: Vec<String>,
    /// Whether the session is over: once its lines are sent on, the
    /// connection is closed.
    pub finished: bool,
}

/// Whether a session opened at `created_at` is too old at `now`. A clock that
/// has gone back makes no session old.
pub open spec fn expired(created_at: u64, now: u64) -> bool {
    now - created_at > WS_AGE_THRESHOLD
}

/// A streaming session as the contracts speak of it.
pub struct Session {
    pub created_at: u64,
    pub lines: Seq<Seq<char>>,
    pub finished: bool,
}

impl View for WsData {
    type V = Session;

    open spec fn view(&self) -> Session {
        Session {
            created_at: self.created_at,
            lines: texts(self.lines@),
            finished: self.finished,
        }
    }
}

/// The streaming sessions, each under its identifier: those that are open,
/// and those given up for their age that wait for their connection to send on
/// what is left in them and to close.
pub struct SessionRegistry {
    /// The open sessions. Their number is limited.
    pub sessions: HashMap<u128, WsData>,
    /// The sessions that have left the open ones, for their age or because
    /// their command has ended, all marked as over.
    pub evicted: HashMap<u128, WsData>,
}

impl View for SessionRegistry {
    type V = Map<u128, Session>;

    open spec fn view(&self) -> Map<u128, Session> {
        self.sessions@.map_values(|data: WsData| data@)
    }
}

impl SessionRegistry {
    /// The sessions that have left the open ones and wait for their
    /// connection.
    pub open spec fn leaving(&self) -> Map<u128, Session> {
        self.evicted@.map_values(|data: WsData| data@)
    }
}

/// A session opened at `created_at`, with no output yet.
pub open spec fn fresh_session(created_at: u64) -> Session {
    Session { created_at, lines: Seq::<Seq<char>>::empty(), finished: false }
}

impl WsData {
    /// A session opened at `created_at`, with no output yet.
    pub fn new(created_at: u64) -> (data: Self)
        ensures
            data.created_at == created_at,
            data.lines@ == Seq::<String>::empty(),
            !data.finished,
    {
        WsData { created_at, lines: Vec::new(), finished: false }
    }

    /// Queues one line of output behind those that wait.
    pub fn push_line(&mut self, line: String)
        ensures
            final(self).lines@ == old(self).lines@.push(line),
            final(self).created_at == old(self).created_at,
            final(self).finished == old(self).finished,
    {
        self.lines.push(line);
    }

    /// Marks the session as over.
    pub fn finish(&mut self)
        ensures
            final(self).finished,
            final(self).lines@ == old(self).lines@,
            final(self).created_at == old(self).created_at,
    {
        self.finished = true;
    }

    /// Takes the lines that wait, oldest first, and leaves none behind.
    pub fn drain(&mut self) -> (lines: Vec<String>)
        ensures
            lines@ == old(self).lines@,
            final(self).lines@ == Seq::<String>::empty(),
            final(self).created_at == old(self).created_at,
            final(self).finished == old(self).finished,
    {
        let mut lines: Vec<String> = Vec::new();
        std::mem::swap(&mut lines, &mut self.lines);
        lines
    }

    /// Whether the session is too old at `now`, in milliseconds since the Unix
    /// epoch.
    pub fn is_expired(&self, now: u64) -> (old_enough: bool)
        ensures
            old_enough == expired(self.created_at, now),
    {
        now > self.created_at && now - self.created_at > WS_AGE_THRESHOLD
    }
}

/// A session with one more line queued behind those that wait.
pub open spec fn with_line(session: Session, line: Seq<char>) -> Session {
    Session { lines: session.lines.push(line), ..session }
}

/// A session that is over.
pub open spec fn ended(session: Session) -> Session {
    Session { finished: true, ..session }
}

/// A session after a step of a streamed command.
pub open spec fn after_step(session: Session, line: Option<Seq<char>>, finished: bool) -> Session {
    Session {
        created_at: session.created_at,
        lines: match line {
            Some(text) => session.lines.push(text),
            None => session.lines,
        },
        finished: session.finished || finished,
    }
}

/// The identifiers of the sessions that are too old at `now`.
pub open spec fn expired_ids(map: Map<u128, Session>, now: u64) -> Set<u128> {
    Set::new(|id: u128| map.contains_key(id) && expired(map[id].created_at, now))
}

/// The sessions that are left when those too old at `now` are given up.
pub open spec fn without_expired(map: Map<u128, Session>, now: u64) -> Map<u128, Session> {
    map.remove_keys(expired_ids(map, now))
}

/// The sessions that wait for their connection once the sessions `ids` of
/// `map` have joined those of `leaving`, each marked as over.
pub open spec fn moved(
    leaving: Map<u128, Session>,
    map: Map<u128, Session>,
    ids: Set<u128>,
) -> Map<u128, Session> {
    Map::new(
        |id: u128| ids.contains(id) || leaving.contains_key(id),
        |id: u128|
            if ids.contains(id) {
                ended(map[id])
            } else {
                leaving[id]
            },
    )
}

/// The sessions that wait for their connection once those of `map` that are
/// too old at `now` are given up.
pub open spec fn with_evicted(
    leaving: Map<u128, Session>,
    map: Map<u128, Session>,
    now: u64,
) -> Map<u128, Session> {
    moved(leaving, map, expired_ids(map, now))
}

/// Whether no further session can be opened beside these.
pub open spec fn crowded(map: Map<u128, Session>) -> bool {
    map.len() >= WS_MAX_CONCURRENT
}

impl SessionRegistry {
    /// A registry without sessions.
    pub fn new() -> (map: Self)
        ensures
            map@ == Map::<u128, Session>::empty(),
            map.leaving() == Map::<u128, Session>::empty(),
    {
        let map = SessionRegistry { sessions: HashMap::new(), evicted: HashMap::new() };
        assert(map@ =~= Map::<u128, Session>::empty());
        assert(map.leaving() =~= Map::<u128, Session>::empty());
        map
    }

    /// The number of sessions.
    pub fn len(&self) -> (n: usize)
        ensures
            n == self@.len(),
    {
        broadcast use vstd::std_specs::hash::group_hash_axioms;

        assert(self@.dom() =~= self.sessions@.dom());
        self.sessions.len()
    }

    /// Whether a session has the identifier `id`.
    pub fn contains(&self, id: u128) -> (found: bool)
        ensures
            found == self@.contains_key(id),
    {
        broadcast use vstd::std_specs::hash::group_hash_axioms;

        self.sessions.contains_key(&id)
    }

    /// Puts a session opened at `now` under `id`, in the place of any that
    /// was there.
    pub fn insert(&mut self, id: u128, now: u64)
        ensures
            final(self).leaving() == old(self).leaving(),
            final(self)@ == old(self)@.insert(id, fresh_session(now)),
    {
        broadcast use vstd::std_specs::hash::group_hash_axioms;

        let data = WsData::new(now);
        assert(data@ == fresh_session(now)) by {
            assert(texts(data.lines@) =~= Seq::<Seq<char>>::empty());
        }
        self.sessions.insert(id, data);
        assert(self@ =~= old(self)@.insert(id, fresh_session(now)));
    }

    /// Queues one line of output in the session `id`.
    pub fn push_line(&mut self, id: u128, line: String) -> (res: Result<(), FwcError>)
        ensures
            final(self).leaving() == old(self).leaving(),
            old(self)@.contains_key(id) ==> res is Ok && final(self)@ == old(self)@.insert(
                id,
                with_line(old(self)@[id], line@),
            ),
            !old(self)@.contains_key(id) ==> (res matches Err(FwcError::WebSocketIdNotFound))
                && final(self)@ == old(self)@,
    {
        broadcast use vstd::std_specs::hash::group_hash_axioms;

        match self.sessions.remove(&id) {
            Some(mut data) => {
                let ghost before = data@;
                data.push_line(line);
                assert(data@ == with_line(before, line@)) by {
                    assert(texts(data.lines@) =~= before.lines.push(line@));
                }
                self.sessions.insert(id, data);
                assert(self@ =~= old(self)@.insert(id, with_line(old(self)@[id], line@)));
                Ok(())
            },
            None => {
                assert(self@ =~= old(self)@);
                Err(FwcError::WebSocketIdNotFound)
            },
        }
    }

    /// Marks the session `id` as over.
    pub fn finish(&mut self, id: u128) -> (res: Result<(), FwcError>)
        ensures
            final(self).leaving() == old(self).leaving(),
            old(self)@.contains_key(id) ==> res is Ok && final(self)@ == old(self)@.insert(
                id,
                ended(old(self)@[id]),
            ),
            !old(self)@.contains_key(id) ==> (res matches Err(FwcError::WebSocketIdNotFound))
                && final(self)@ == old(self)@,
    {
        broadcast use vstd::std_specs::hash::group_hash_axioms;

        match self.sessions.remove(&id) {
            Some(mut data) => {
                data.finish();
                self.sessions.insert(id, data);
                assert(self@ =~= old(self)@.insert(id, ended(old(self)@[id])));
                Ok(())
            },
            None => {
                assert(self@ =~= old(self)@);
                Err(FwcError::WebSocketIdNotFound)
            },
        }
    }

    /// Does to the session `id` what a step of a streamed command asks for:
    /// queues the line, if there is one, and then marks the session as over,
    /// if the step says so.
    pub fn deliver(&mut self, id: u128, todo: StreamStep) -> (res: Result<(), FwcError>)
        ensures
            final(self).leaving() == old(self).leaving(),
            old(self)@.contains_key(id) ==> res is Ok && final(self)@ == old(self)@.insert(
                id,
                after_step(
                    old(self)@[id],
                    match todo.line {
                        Some(line) => Some(line@),
                        None => None,
                    },
                    todo.finished,
                ),
            ),
            !old(self)@.contains_key(id) ==> (res matches Err(FwcError::WebSocketIdNotFound))
                && final(self)@ == old(self)@,
    {
        broadcast use vstd::std_specs::hash::group_hash_axioms;

        match self.sessions.remove(&id) {
            Some(mut data) => {
                let ghost before = data@;
                let ghost asked = todo.line;
                let ghost over = todo.finished;
                crate::utils::cmd::deliver(&mut data, todo);
                let ghost after = after_step(
                    before,
                    match asked {
                        Some(line) => Some(line@),
                        None => None,
                    },
                    over,
                );
                assert(data@ == after) by {
                    match asked {
                        Some(line) => {
                            assert(texts(data.lines@) =~= before.lines.push(line@));
                        },
                        None => {},
                    }
                }
                self.sessions.insert(id, data);
                assert(self@ =~= old(self)@.insert(id, after));
                Ok(())
            },
            None => {
                assert(self@ =~= old(self)@);
                Err(FwcError::WebSocketIdNotFound)
            },
        }
    }

    /// Puts a session under `id`, in the place of any that was there.
    pub fn put_back(&mut self, id: u128, data: WsData)
        ensures
            final(self).leaving() == old(self).leaving(),
            final(self)@ == old(self)@.insert(id, data@),
    {
        broadcast use vstd::std_specs::hash::group_hash_axioms;

        self.sessions.insert(id, data);
        assert(self@ =~= old(self)@.insert(id, data@));
    }

    /// Takes the session `id` out of the registry.
    pub fn remove(&mut self, id: u128) -> (data: Option<WsData>)
        ensures
            final(self).leaving() == old(self).leaving(),
            final(self)@ == old(self)@.remove(id),
            data is Some == old(self)@.contains_key(id),
            data matches Some(d) ==> d@ == old(self)@[id],
    {
        broadcast use vstd::std_specs::hash::group_hash_axioms;

        let data = self.sessions.remove(&id);
        assert(self@ =~= old(self)@.remove(id));
        data
    }

    /// Gives up the sessions that are too old at `now`: each is marked as over
    /// and leaves the open sessions, to wait for its connection with what is
    /// queued in it. The identifiers of the sessions given up come back, in
    /// no particular order.
    pub fn evict_expired(&mut self, now: u64) -> (evicted: Vec<u128>)
        ensures
            final(self)@ == without_expired(old(self)@, now),
            final(self).leaving() == with_evicted(old(self).leaving(), old(self)@, now),
            evicted@.no_duplicates(),
            evicted@.to_set() == expired_ids(old(self)@, now),
    {
        broadcast use vstd::std_specs::hash::group_hash_axioms;

        let ghost before = self@;
        let ghost waiting = self.leaving();
        let ghost keys = vstd::std_specs::hash::spec_keys_iter(&self.sessions).remaining().unref();
        assert(keys.no_duplicates());
        assert(keys.to_set() =~= before.dom());
        let mut ids: Vec<u128> = Vec::new();
        for key in it: self.sessions.keys()
            invariant
                self@ == before,
                self.leaving() == waiting,
                it.seq().unref() == keys,
                keys.no_duplicates(),
                keys.to_set() == before.dom(),
                ids@.no_duplicates(),
                forall|j: int|
                    0 <= j < ids.len() ==> keys.take(it.index()).contains(#[trigger] ids[j])
                        && expired_ids(before, now).contains(ids[j]),
                forall|k: int|
                    0 <= k < it.index() && expired_ids(before, now).contains(#[trigger] keys[k])
                        ==> ids@.contains(keys[k]),
        {
            let ghost at = it.index();
            let ghost found = ids@;
            assert(keys[at] == *key);
            assert(keys.contains(*key));
            assert(before.dom().contains(*key));
            let data = self.sessions.get(key).unwrap();
            assert(data@ == before[*key]);
            assert forall|j: int| 0 <= j < found.len() implies keys.take(at + 1).contains(
                #[trigger] found[j],
            ) && found[j] != *key by {
                let k = choose|k: int| 0 <= k < at && keys.take(at)[k] == found[j];
                assert(keys.take(at + 1)[k] == found[j]);
            }
            if data.is_expired(now) {
                ids.push(*key);
                assert(keys.take(at + 1)[at] == *key);
                assert(ids@[found.len() as int] == *key);
                assert forall|k: int|
                    0 <= k < at + 1 && expired_ids(before, now).contains(
                        #[trigger] keys[k],
                    ) implies ids@.contains(keys[k]) by {
                    if k < at {
                        let j = choose|j: int| 0 <= j < found.len() && found[j] == keys[k];
                        assert(ids@[j] == keys[k]);
                    }
                }
            }
        }
        assert(ids@.to_set() =~= expired_ids(before, now)) by {
            assert forall|id: u128| expired_ids(before, now).contains(id) implies ids@.contains(
                id,
            ) by {
                assert(keys.to_set().contains(id));
                let k = choose|k: int| 0 <= k < keys.len() && keys[k] == id;
                assert(expired_ids(before, now).contains(keys[k]));
            }
        }
        let mut i: usize = 0;
        assert(ids@.take(0).to_set() =~= Set::<u128>::empty());
        assert(self@ =~= before.remove_keys(Set::<u128>::empty()));
        assert(self.leaving() =~= moved(waiting, before, Set::<u128>::empty()));
        while i < ids.len()
            invariant
                i <= ids.len(),
                ids@.no_duplicates(),
                ids@.to_set() == expired_ids(before, now),
                self@ == before.remove_keys(ids@.take(i as int).to_set()),
                self.leaving() == moved(waiting, before, ids@.take(i as int).to_set()),
            decreases ids.len() - i,
        {
            let id = ids[i];
            let ghost gone = ids@.take(i as int);
            let ghost now_map = self@;
            let ghost now_leaving = self.leaving();
            assert(ids@.contains(id));
            assert(expired_ids(before, now).contains(id));
            assert(!gone.contains(id)) by {
                if gone.contains(id) {
                    let j = choose|j: int| 0 <= j < gone.len() && gone[j] == id;
                    assert(ids@[j] == ids@[i as int]);
                }
            }
            assert(now_map.contains_key(id));
            assert(now_map[id] == before[id]);
            let mut data = self.sessions.remove(&id).unwrap();
            data.finish();
            assert(data@ == ended(before[id]));
            self.evicted.insert(id, data);
            assert(ids@.take(i + 1) =~= gone.push(id));
            proof {
                gone.lemma_push_to_set_commute(id);
            }
            assert(self@ =~= now_map.remove(id));
            assert(now_map.remove(id) =~= before.remove_keys(gone.to_set().insert(id)));
            assert(self.leaving() =~= now_leaving.insert(id, ended(before[id])));
            assert(now_leaving.insert(id, ended(before[id])) =~= moved(
                waiting,
                before,
                gone.to_set().insert(id),
            ));
            i += 1;
        }
        assert(ids@.take(ids.len() as int) =~= ids@);
        ids
    }

    /// Takes the session `id` out of the open sessions once the command that
    /// streamed into it has ended: it is marked as over and waits for its
    /// connection with what is queued in it, as a session given up for its
    /// age does. No further command can stream into it.
    pub fn retire(&mut self, id: u128)
        ensures
            final(self)@ == old(self)@.remove(id),
            final(self).leaving() == if old(self)@.contains_key(id) {
                old(self).leaving().insert(id, ended(old(self)@[id]))
            } else {
                old(self).leaving()
            },
    {
        broadcast use vstd::std_specs::hash::group_hash_axioms;

        match self.sessions.remove(&id) {
            Some(mut data) => {
                data.finish();
                self.evicted.insert(id, data);
                assert(self.leaving() =~= old(self).leaving().insert(id, ended(old(self)@[id])));
            },
            None => {},
        }
        assert(self@ =~= old(self)@.remove(id));
    }

    /// Takes a session that waits for its connection from those that do: the
    /// connection has closed it, or is gone itself.
    pub fn forget(&mut self, id: u128) -> (data: Option<WsData>)
        ensures
            final(self)@ == old(self)@,
            final(self).leaving() == old(self).leaving().remove(id),
            data is Some == old(self).leaving().contains_key(id),
            data matches Some(d) ==> d@ == old(self).leaving()[id],
    {
        broadcast use vstd::std_specs::hash::group_hash_axioms;

        let data = self.evicted.remove(&id);
        assert(self.leaving() =~= old(self).leaving().remove(id));
        data
    }

    /// Makes room for, and opens, a session under `id` at `now`: the sessions
    /// too old by then are given up first, and with as many sessions left as
    /// there may be, no session is opened.
    pub fn open_session(&mut self, id: u128, now: u64) -> (res: Result<(), FwcError>)
        ensures
            final(self).leaving() == with_evicted(old(self).leaving(), old(self)@, now),
            crowded(without_expired(old(self)@, now)) ==> (res matches Err(
                FwcError::WebSocketTooMany,
            )) && final(self)@ == without_expired(old(self)@, now),
            !crowded(without_expired(old(self)@, now)) ==> res is Ok && final(self)@
                == without_expired(old(self)@, now).insert(id, fresh_session(now)),
    {
        let _ = self.evict_expired(now);
        if self.len() >= WS_MAX_CONCURRENT {
            return Err(FwcError::WebSocketTooMany);
        }
        self.insert(id, now);
        Ok(())
    }

    /// Opens a session at `now` under a random identifier, which is given
    /// back, after making room as `open_session` does.
    pub fn create_session(&mut self, now: u64) -> (res: Result<u128, FwcError>)
        ensures
            final(self).leaving() == with_evicted(old(self).leaving(), old(self)@, now),
            crowded(without_expired(old(self)@, now)) ==> (res matches Err(
                FwcError::WebSocketTooMany,
            )) && final(self)@ == without_expired(old(self)@, now),
            !crowded(without_expired(old(self)@, now)) ==> (res matches Ok(id) && id != 0
                && final(self)@ == without_expired(old(self)@, now).insert(
                id,
                fresh_session(now),
            )),
    {
        let id = random_uuid();
        match self.open_session(id, now) {
            Ok(()) => Ok(id),
            Err(e) => Err(e),
        }
    }

    /// Whether output can be streamed into the session `id`: there has to be
    /// such a session.
    pub fn find(&self, id: u128) -> (res: Result<(), FwcError>)
        ensures
            self@.contains_key(id) ==> res is Ok,
            !self@.contains_key(id) ==> (res matches Err(FwcError::WebSocketIdNotFound)),
    {
        if self.contains(id) {
            Ok(())
        } else {
            Err(FwcError::WebSocketIdNotFound)
        }
    }

    /// The connection for the session `id`, if there is such a session.
    pub fn attach(&self, id: u128) -> (res: Result<FwcAgentWs, FwcError>)
        ensures
            self@.contains_key(id) ==> (res matches Ok(ws) && ws.id == id && !ws.heart_beat_running
                && !ws.polling_running),
            !self@.contains_key(id) ==> (res matches Err(FwcError::WebSocketIdNotFound)),
    {
        if self.contains(id) {
            Ok(FwcAgentWs { id, heart_beat_running: false, polling_running: false })
        } else {
            Err(FwcError::WebSocketIdNotFound)
        }
    }

    /// Whether the session `id` is over. A session that is not in the
    /// registry is.
    pub fn is_finished(&self, id: u128) -> (over: bool)
        ensures
            over == poll_closes(self@, id),
    {
        broadcast use vstd::std_specs::hash::group_hash_axioms;

        match self.sessions.get(&id) {
            Some(data) => data.finished,
            None => true,
        }
    }
}

/// The close frame of a session that is over.
pub fn close_frame() -> (frame: WsFrame)
    ensures
        frame@ == closing_frame(),
{
    WsFrame::Close(
        Some(
            CloseReason {
                code: CLOSE_NORMAL,
                description: Some(string_of(&chars_of(CLOSE_DESCRIPTION))),
            },
        ),
    )
}

/// One text frame for each line.
fn text_frames_of(lines: &Vec<String>) -> (out: Vec<WsFrame>)
    ensures
        frames(out@) == text_frames(texts(lines@)),
{
    let mut out: Vec<WsFrame> = Vec::new();
    let mut i: usize = 0;
    while i < lines.len()
        invariant
            i <= lines.len(),
            frames(out@) == text_frames(texts(lines@)).take(i as int),
        decreases lines.len() - i,
    {
        let ghost sent = frames(out@);
        let line = lines[i].clone();
        out.push(WsFrame::Text(line));
        assert(frames(out@) =~= sent.push(Frame::Text(line@)));
        i += 1;
    }
    out
}

impl FwcAgentWs {
    /// Opens a session at `now` under a random identifier and gives the
    /// connection for it. A session that had the same identifier is replaced.
    pub fn new(map: &mut SessionRegistry, now: u64) -> (ws: FwcAgentWs)
        ensures
            final(map).leaving() == old(map).leaving(),
            final(map)@ == old(map)@.insert(ws.id, fresh_session(now)),
            ws.id != 0,
            !ws.heart_beat_running,
            !ws.polling_running,
    {
        let id = random_uuid();
        map.insert(id, now);
        FwcAgentWs { id, heart_beat_running: false, polling_running: false }
    }

    /// The identifier of the session.
    pub fn get_id(&self) -> (id: u128)
        ensures
            id == self.id,
    {
        self.id
    }

    /// The connection is up. The first frame for the peer is the identifier
    /// of the session, which the peer names in the request that is to stream
    /// into it; both timers run from now on.
    pub fn started(&mut self) -> (first: WsFrame)
        ensures
            first@ == Frame::Text(hyphenated(old(self).id)),
            final(self).id == old(self).id,
            final(self).heart_beat_running,
            final(self).polling_running,
    {
        self.heart_beat_running = true;
        self.polling_running = true;
        WsFrame::Text(uuid_text(self.id))
    }

    /// One round of sending lines on. Gives the frames for the peer: one text
    /// frame for every line that waits, oldest first, and after them the
    /// close frame if the session is over. With the close frame the session
    /// leaves the registry and both timers stop. A session that was given up
    /// for its age is over: what was queued in it is sent, and then the close
    /// frame.
    pub fn send_lines(&mut self, map: &mut SessionRegistry) -> (out: Vec<WsFrame>)
        ensures
            final(self).id == old(self).id,
            frames(out@) == polled_frames(old(map)@, old(map).leaving(), old(self).id),
            final(map)@ == polled_map(old(map)@, old(self).id),
            final(map).leaving() == polled_leaving(old(map)@, old(map).leaving(), old(self).id),
            final(self).polling_running == (old(self).polling_running && !poll_closes(
                old(map)@,
                old(self).id,
            )),
            final(self).heart_beat_running == (old(self).heart_beat_running && !poll_closes(
                old(map)@,
                old(self).id,
            )),
    {
        match map.remove(self.id) {
            Some(mut data) => {
                let ghost session = data@;
                let lines = data.drain();
                let mut out = text_frames_of(&lines);
                if data.finished {
                    let ghost sent = frames(out@);
                    out.push(close_frame());
                    assert(frames(out@) =~= sent.push(closing_frame()));
                    self.polling_running = false;
                    self.heart_beat_running = false;
                } else {
                    assert(data@ == (Session { lines: Seq::<Seq<char>>::empty(), ..session })) by {
                        assert(texts(data.lines@) =~= Seq::<Seq<char>>::empty());
                    }
                    map.put_back(self.id, data);
                }
                out
            },
            None => {
                self.polling_running = false;
                self.heart_beat_running = false;
                match map.forget(self.id) {
                    Some(mut data) => {
                        let lines = data.drain();
                        let mut out = text_frames_of(&lines);
                        let ghost sent = frames(out@);
                        out.push(close_frame());
                        assert(frames(out@) =~= sent.push(closing_frame()));
                        out
                    },
                    None => {
                        let mut out: Vec<WsFrame> = Vec::new();
                        out.push(close_frame());
                        assert(frames(out@) =~= seq![closing_frame()]);
                        assert(map.leaving() =~= old(map).leaving());
                        out
                    },
                }
            },
        }
    }

    /// One round of the keep-alive: a ping for the peer while the session is
    /// not over, and the end of the keep-alive once it is.
    pub fn heart_beat(&mut self, map: &SessionRegistry) -> (ping: Option<WsFrame>)
        ensures
            final(self).id == old(self).id,
            final(self).polling_running == old(self).polling_running,
            poll_closes(map@, old(self).id) ==> ping is None && !final(self).heart_beat_running,
            !poll_closes(map@, old(self).id) ==> (ping matches Some(frame) && frame@
                == Frame::Ping(PING_PAYLOAD@)) && final(self).heart_beat_running == old(
                self,
            ).heart_beat_running,
    {
        if map.is_finished(self.id) {
            self.heart_beat_running = false;
            None
        } else {
            Some(WsFrame::Ping(string_of(&chars_of(PING_PAYLOAD))))
        }
    }

    /// The answer to what the peer has sent: a pong with the same bytes for a
    /// ping, the close frame given back for a close frame, after which the
    /// connection listens no more, and nothing for anything else.
    pub fn handle(&self, msg: WsMessage) -> (answer: Option<WsFrame>)
        ensures
            answer == match msg {
                WsMessage::Ping(bytes) => Some(WsFrame::Pong(bytes)),
                WsMessage::Close(reason) => Some(WsFrame::Close(reason)),
                WsMessage::Other => None,
            },
    {
        match msg {
            WsMessage::Ping(bytes) => Some(WsFrame::Pong(bytes)),
            WsMessage::Close(reason) => Some(WsFrame::Close(reason)),
            WsMessage::Other => None,
        }
    }
}

/// A session that was given up for its age is marked as over and is not among
/// the open sessions any more, and the connection that carries it sends, in
/// its next round of sending lines on, every line that was queued in it, in
/// order, and then the close frame.
pub proof fn law_evicted_session_is_closed(
    map: Map<u128, Session>,
    leaving: Map<u128, Session>,
    now: u64,
    id: u128,
)
    requires
        map.contains_key(id),
        expired(map[id].created_at, now),
    ensures
        !without_expired(map, now).contains_key(id),
        with_evicted(leaving, map, now).contains_key(id),
        with_evicted(leaving, map, now)[id] == ended(map[id]),
        with_evicted(leaving, map, now)[id].finished,
        polled_frames(without_expired(map, now), with_evicted(leaving, map, now), id)
            == text_frames(map[id].lines).push(closing_frame()),
        poll_closes(without_expired(map, now), id),
        !polled_leaving(
            without_expired(map, now),
            with_evicted(leaving, map, now),
            id,
        ).contains_key(id),
{
}

/// Opening a session never leaves more sessions than there may be: the
/// registry does not grow without bound.
pub proof fn law_registry_stays_bounded(map: Map<u128, Session>, now: u64, id: u128)
    requires
        map.dom().finite(),
        map.len() <= WS_MAX_CONCURRENT,
    ensures
        without_expired(map, now).len() <= map.len(),
        !crowded(without_expired(map, now)) ==> without_expired(map, now).insert(
            id,
            fresh_session(now),
        ).len() <= WS_MAX_CONCURRENT,
{
    let left = without_expired(map, now);
    assert(left.dom() =~= map.dom().difference(expired_ids(map, now)));
    vstd::set_lib::lemma_len_difference(map.dom(), expired_ids(map, now));
    let more = left.insert(id, fresh_session(now));
    assert(more.dom() =~= left.dom().insert(id));
}

/// A session that was retired is not among the open sessions any more, and
/// the connection that carries it sends, in its next round of sending lines
/// on, every line that was queued in it, in order, and then the close frame.
pub proof fn law_retired_session_is_closed(
    map: Map<u128, Session>,
    leaving: Map<u128, Session>,
    id: u128,
)
    requires
        map.contains_key(id),
    ensures
        polled_frames(map.remove(id), leaving.insert(id, ended(map[id])), id) == text_frames(
            map[id].lines,
        ).push(closing_frame()),
        poll_closes(map.remove(id), id),
{
}

/// A session that is over is closed by the next round of sending lines on,
/// after every line that was queued in it, in the order of their queueing.
pub proof fn law_finished_session_drains_then_closes(
    map: Map<u128, Session>,
    leaving: Map<u128, Session>,
    id: u128,
)
    requires
        map.contains_key(id),
        map[id].finished,
    ensures
        polled_frames(map, leaving, id) == text_frames(map[id].lines).push(closing_frame()),
        !polled_map(map, id).contains_key(id),
        poll_closes(map, id),
{
}

} // verus!
