use crate::challenge::pending_at;
use crate::session::live_at;
use crate::state::State;
use vstd::prelude::*;

verus! {

/// The time between two sweeps: one hour.
pub const SWEEP_INTERVAL_SECONDS: u64 = 3_600;

/// One sweep at `now`: the sessions and the challenges that have expired
/// are deleted. A scheduler outside the core calls this at intervals; the
/// path of a request never does.
pub fn sweep(state: &mut State, now: i64)
    requires
        old(state).wf(),
    ensures
        final(state).wf(),
        final(state).same_users(old(state)),
        final(state).sessions.next_id() == old(state).sessions.next_id(),
        final(state).challenges.next_id() == old(state).challenges.next_id(),
        final(state).sessions@ == old(state).sessions@.filter(live_at(now)),
        final(state).challenges@ == old(state).challenges@.filter(pending_at(now)),
{
    state.delete_all_expired_sessions(now);
    state.delete_expired_challenges(now);
}

} // verus!
