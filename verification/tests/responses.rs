use osu_pp_calc::clock::TimeSpan;
use osu_pp_calc::player_cache::EnqueueResult;
use osu_pp_calc::profile_queue::RequestStatus;
use osu_pp_calc::responses::{position, remaining_secs, request_word, status_word};

#[test]
fn request_words() {
    assert_eq!(request_word(EnqueueResult::AlreadyDone), "done");
    assert_eq!(request_word(EnqueueResult::Enqueued), "accepted");
    assert_eq!(request_word(EnqueueResult::CantForce(TimeSpan::from_secs(3))), "cant_force");
}

#[test]
fn remaining_seconds_of_a_refusal() {
    assert_eq!(remaining_secs(EnqueueResult::CantForce(TimeSpan::from_secs(840))), Some(840));
    assert_eq!(
        remaining_secs(EnqueueResult::CantForce(TimeSpan::from_nanos(839_999_999_999))),
        Some(839)
    );
    assert_eq!(remaining_secs(EnqueueResult::Enqueued), None);
    assert_eq!(remaining_secs(EnqueueResult::AlreadyDone), None);
}

#[test]
fn status_words() {
    assert_eq!(status_word(Some(RequestStatus::Pending(4))), "pending");
    assert_eq!(status_word(Some(RequestStatus::Calculating)), "calculating");
    assert_eq!(status_word(Some(RequestStatus::Done)), "done");
    assert_eq!(status_word(Some(RequestStatus::Error)), "error");
    assert_eq!(status_word(None), "error");
    assert_eq!(position(Some(RequestStatus::Pending(4))), Some(4));
    assert_eq!(position(Some(RequestStatus::Done)), None);
    assert_eq!(position(None), None);
}
