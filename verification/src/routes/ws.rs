//! Requests that open a streaming session, and one that tries one out.

use vstd::prelude::*;

use crate::errors::FwcError;
use crate::text::{decimal, decimal_of, push_str, string_of};
use crate::utils::ws::{
    closing_frame, crowded, ended, expired_ids, fresh_session, polled_frames, text_frames,
    with_evicted, without_expired, FwcAgentWs, SessionRegistry, WS_MAX_CONCURRENT,
};

verus! {

/// What follows the number in a line of the trial.
pub const SECONDS_LEFT: &'static str = " seconds left";

/// Serves a request for a connection: the sessions that are too old at `now`
/// are given up, and unless as many are left as there may be, a session is
/// opened under a random identifier and its connection given. A session that
/// is given up is marked as over and waits for its connection, which in its
/// next round sends every line still queued in it and then the close frame.
pub fn websocket(map: &mut SessionRegistry, now: u64) -> (res: Result<FwcAgentWs, FwcError>)
    ensures
        final(map).leaving() == with_evicted(old(map).leaving(), old(map)@, now),
        crowded(without_expired(old(map)@, now)) ==> (res matches Err(FwcError::WebSocketTooMany))
            && final(map)@ == without_expired(old(map)@, now),
        !crowded(without_expired(old(map)@, now)) ==> (res matches Ok(ws) && ws.id != 0
            && !ws.heart_beat_running && !ws.polling_running && final(map)@ == without_expired(
            old(map)@,
            now,
        ).insert(ws.id, fresh_session(now))),
        forall|id: u128|
            #![trigger old(map)@[id]]
            expired_ids(old(map)@, now).contains(id) && !(res matches Ok(ws) && ws.id == id) ==> {
                &&& !final(map)@.contains_key(id)
                &&& final(map).leaving()[id] == ended(old(map)@[id])
                &&& polled_frames(final(map)@, final(map).leaving(), id) == text_frames(
                    old(map)@[id].lines,
                ).push(closing_frame())
            },
{
    let _ = map.evict_expired(now);
    if map.len() >= WS_MAX_CONCURRENT {
        return Err(FwcError::WebSocketTooMany);
    }
    Ok(FwcAgentWs::new(map, now))
}

/// The line that the trial of a session queues with `seconds` seconds to go.
pub fn websocket_test_line(seconds: u16) -> (line: String)
    ensures
        line@ == decimal(seconds as nat) + SECONDS_LEFT@,
{
    let mut line = decimal_of(seconds as u64);
    push_str(&mut line, SECONDS_LEFT);
    string_of(&line)
}

} // verus!
