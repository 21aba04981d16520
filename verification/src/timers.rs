//! Periodic housekeeping: the save timer and the liveness ping timer.
//!
//! The timers themselves belong to the surrounding program; what each firing
//! does, and whether the timer is rescheduled afterwards, is decided here.

use vstd::prelude::*;

use crate::persist::history_model_of;
use crate::persist::history_text_of;
use crate::room::RoomState;

verus! {

/// The two periodic timers of the service.
pub enum TimerKind {
    Save,
    Ping,
}

/// What a timer firing asks the surrounding program to do: rewrite the
/// backing store with the given snapshot text, or send a keepalive probe to
/// this session's client.
pub enum TimerAction {
    WriteSnapshot(String),
    SendPing,
}

/// What happens when a timer fires. The save timer snapshots the entire
/// current history to its persisted text, taken atomically with respect to
/// appends (the caller holds the room); the ping timer emits a probe and
/// reads no state.
pub fn timer_fired(room: &RoomState, kind: TimerKind) -> (r: TimerAction)
    ensures
        match kind {
            TimerKind::Save => {
                &&& r matches TimerAction::WriteSnapshot(t)
                &&& t@ == history_text_of(room.history_view())
                &&& history_model_of(t@) == Some(room.history_view())
            },
            TimerKind::Ping => r == TimerAction::SendPing,
        },
{
    match kind {
        TimerKind::Save => TimerAction::WriteSnapshot(
            crate::persist::encode_history(room.history()),
        ),
        TimerKind::Ping => TimerAction::SendPing,
    }
}

/// Whether a timer is rescheduled after its action ran. The save timer is
/// always rescheduled, whether or not the write succeeded, so one failed
/// write never silently ends periodic saving. A failed ping means a dead
/// transport: it is fatal for the session, so the ping timer is rescheduled
/// only while the probes go through.
pub fn reschedule_after(kind: TimerKind, action_ok: bool) -> (r: bool)
    ensures
        r == (match kind {
            TimerKind::Save => true,
            TimerKind::Ping => action_ok,
        }),
{
    match kind {
        TimerKind::Save => true,
        TimerKind::Ping => action_ok,
    }
}

} // verus!
