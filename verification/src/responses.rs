//! The words in which the service answers its clients.

use crate::player_cache::EnqueueResult;
use crate::profile_queue::RequestStatus;
use vstd::prelude::*;

verus! {

/// The word for the answer to a request.
pub open spec fn spec_request_word(answer: EnqueueResult) -> Seq<char> {
    match answer {
        EnqueueResult::AlreadyDone => "done"@,
        EnqueueResult::Enqueued => "accepted"@,
        EnqueueResult::CantForce(_) => "cant_force"@,
    }
}

/// The word for the status of a request. A request that is not known is
/// told the same as one that failed.
pub open spec fn spec_status_word(status: Option<RequestStatus>) -> Seq<char> {
    match status {
        Some(RequestStatus::Pending(_)) => "pending"@,
        Some(RequestStatus::Calculating) => "calculating"@,
        Some(RequestStatus::Done) => "done"@,
        Some(RequestStatus::Error) => "error"@,
        None => "error"@,
    }
}

/// The whole seconds that a refused request has to wait, and `None` for any
/// other answer.
pub open spec fn spec_remaining_secs(answer: EnqueueResult) -> Option<u128> {
    match answer {
        EnqueueResult::CantForce(left) => Some(left.nanos / crate::clock::NANOS_PER_SEC),
        _ => None,
    }
}

/// The word that tells a client the answer to its request.
pub fn request_word(answer: EnqueueResult) -> (word: &'static str)
    ensures
        word@ == spec_request_word(answer),
{
    match answer {
        EnqueueResult::AlreadyDone => "done",
        EnqueueResult::Enqueued => "accepted",
        EnqueueResult::CantForce(_) => "cant_force",
    }
}

/// The whole seconds that a client whose request was refused has to wait
/// before it can force a new calculation.
pub fn remaining_secs(answer: EnqueueResult) -> (secs: Option<u128>)
    ensures
        secs == spec_remaining_secs(answer),
{
    match answer {
        EnqueueResult::CantForce(left) => Some(left.as_secs()),
        _ => None,
    }
}

/// The word that tells a polling client the status of its request.
pub fn status_word(status: Option<RequestStatus>) -> (word: &'static str)
    ensures
        word@ == spec_status_word(status),
{
    match status {
        Some(RequestStatus::Pending(_)) => "pending",
        Some(RequestStatus::Calculating) => "calculating",
        Some(RequestStatus::Done) => "done",
        Some(RequestStatus::Error) => "error",
        None => "error",
    }
}

/// The place in line of a pending request, and `None` for any other status.
pub fn position(status: Option<RequestStatus>) -> (place: Option<usize>)
    ensures
        place == match status {
            Some(RequestStatus::Pending(pos)) => Some(pos),
            _ => None,
        },
{
    match status {
        Some(RequestStatus::Pending(pos)) => Some(pos),
        _ => None,
    }
}

} // verus!
