use crate::error::SyncError;
use vstd::prelude::*;

verus! {

/// How many units may wait for the database actor at once. A caller that
/// submits one more waits until there is room.
pub const ACTOR_QUEUE: usize = 128;

/// What a submission to the database actor comes to. A unit that ran hands
/// back what it returned, its error included. A unit that could not be
/// submitted, or whose answer never came, tells that the actor is gone.
pub open spec fn spec_settle<R>(sent: bool, reply: Option<Result<R, SyncError>>) -> Result<
    R,
    SyncError,
> {
    if !sent {
        Err(SyncError::ActorGone)
    } else {
        match reply {
            Some(outcome) => outcome,
            None => Err(SyncError::ActorGone),
        }
    }
}

/// Settles a submission: `sent` says whether the actor took the unit, and
/// `reply` holds the unit's answer where one came.
pub fn settle<R>(sent: bool, reply: Option<Result<R, SyncError>>) -> (r: Result<R, SyncError>)
    ensures
        r == spec_settle(sent, reply),
{
    if !sent {
        return Err(SyncError::ActorGone);
    }
    match reply {
        Some(outcome) => outcome,
        None => Err(SyncError::ActorGone),
    }
}

} // verus!
