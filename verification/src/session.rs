//! The adapter's session state machine.
//!
//! The real session handle lives outside this crate (it is the SDK's own
//! connection object, driven by unverified glue); what is verified here is the
//! slot's lifecycle: empty until a connect attempt succeeds, emptied again by
//! disconnect, and untouched by anything else.

use vstd::prelude::*;

verus! {

/// The adapter core.  It tracks whether the session slot is filled; every
/// operation that needs a live session asks it first and answers with its
/// documented sentinel when the slot is empty.
pub struct BreezNode {
    connected: bool,
}

/// One observable change of the session slot.
#[derive(Clone, Copy, Debug, PartialEq, Eq, Structural)]
pub enum SessionEvent {
    /// A connect attempt reached the backend and a session was handed back.
    Established,
    /// A connect attempt ran and failed; whatever the slot held is kept.
    AttemptFailed,
    /// The engine asked for the session to be dropped.
    Disconnect,
}

/// How the session slot moves under one event.
pub open spec fn session_step(connected: bool, event: SessionEvent) -> bool {
    match event {
        SessionEvent::Established => true,
        SessionEvent::AttemptFailed => connected,
        SessionEvent::Disconnect => false,
    }
}

/// The slot after a whole run of events, started from `connected`.
pub open spec fn session_run(connected: bool, events: Seq<SessionEvent>) -> bool
    decreases events.len(),
{
    if events.len() == 0 {
        connected
    } else {
        session_run(session_step(connected, events[0]), events.skip(1))
    }
}

/// Law: a session can only come from a successful connect attempt.  Starting
/// disconnected, no run of failed attempts and disconnects ever fills the
/// slot, so the presence check stays false throughout.
pub proof fn lemma_no_session_without_established(events: Seq<SessionEvent>)
    requires
        forall|i: int| 0 <= i < events.len() ==> events[i] != SessionEvent::Established,
    ensures
        !session_run(false, events),
    decreases events.len(),
{
    if events.len() > 0 {
        assert(events[0] != SessionEvent::Established);
        assert(session_step(false, events[0]) == false);
        assert forall|i: int| 0 <= i < events.skip(1).len() implies events.skip(1)[i]
            != SessionEvent::Established by {
            assert(events.skip(1)[i] == events[i + 1]);
        }
        lemma_no_session_without_established(events.skip(1));
    }
}

/// Law: disconnect is idempotent.  The first disconnect empties the slot; a
/// second one finds it empty and changes nothing, and since a disconnect is
/// only reported when it actually dropped a session, the second one is silent.
pub proof fn lemma_disconnect_idempotent(connected: bool)
    ensures
        session_step(session_step(connected, SessionEvent::Disconnect), SessionEvent::Disconnect)
            == session_step(connected, SessionEvent::Disconnect),
        !session_step(connected, SessionEvent::Disconnect),
{
}

impl BreezNode {
    /// Whether the session slot is filled.
    pub closed spec fn connected(self) -> bool {
        self.connected
    }

    /// A fresh adapter: the session slot is empty.
    pub fn init() -> (node: Self)
        ensures
            !node.connected(),
    {
        BreezNode { connected: false }
    }

    /// Pure presence check of the session slot; involves no network traffic.
    pub fn is_sdk_connected(&self) -> (r: bool)
        ensures
            r == self.connected(),
    {
        self.connected
    }

    /// Records the outcome of a connect attempt and reports it back to the
    /// engine.  A successful attempt fills the slot; a failed one keeps
    /// whatever the slot held before.
    pub fn finish_connect(&mut self, established: bool) -> (r: bool)
        ensures
            r == established,
            final(self).connected() == session_step(
                old(self).connected(),
                if established {
                    SessionEvent::Established
                } else {
                    SessionEvent::AttemptFailed
                },
            ),
            final(self).connected() == (old(self).connected() || established),
    {
        if established {
            self.connected = true;
        }
        established
    }

    /// Empties the session slot.  Returns whether a session was present, so
    /// the caller reports the drop only once.
    pub fn disconnect_breez(&mut self) -> (had_session: bool)
        ensures
            !final(self).connected(),
            final(self).connected() == session_step(
                old(self).connected(),
                SessionEvent::Disconnect,
            ),
            had_session == old(self).connected(),
    {
        let had: bool = self.connected;
        self.connected = false;
        had
    }
}

} // verus!
