use osu_pp_calc::clock::Timestamp;
use osu_pp_calc::profile_cache::ProfileCache;
use osu_pp_calc::profile_queue::{request_status, JobState, ProfileQueue, RequestStatus};

#[test]
fn request_status_follows_the_job_state() {
    assert_eq!(request_status(JobState::Pending, 3, false), RequestStatus::Pending(3));
    assert_eq!(request_status(JobState::Pending, 0, true), RequestStatus::Pending(0));
    assert_eq!(request_status(JobState::Acknowledged, 3, false), RequestStatus::Calculating);
    assert_eq!(request_status(JobState::Complete, 3, false), RequestStatus::Done);
    assert_eq!(request_status(JobState::Complete, 3, true), RequestStatus::Error);
}

#[test]
fn user_without_job_has_no_status() {
    let queue = ProfileQueue::new();
    assert_eq!(queue.job_id("rafis".to_string()), None);
    assert_eq!(queue.status("rafis".to_string(), JobState::Complete, 0), None);
}

#[test]
fn enqueue_keeps_the_first_job_of_a_user() {
    let mut queue = ProfileQueue::new();
    queue.enqueue("rafis".to_string(), 4);
    queue.enqueue("mathi".to_string(), 5);
    queue.enqueue("rafis".to_string(), 6);
    assert_eq!(queue.job_id("rafis".to_string()), Some(4));
    assert_eq!(queue.job_id("mathi".to_string()), Some(5));
    assert_eq!(
        queue.status("rafis".to_string(), JobState::Pending, 2),
        Some(RequestStatus::Pending(2))
    );
    assert_eq!(
        queue.status("rafis".to_string(), JobState::Acknowledged, 0),
        Some(RequestStatus::Calculating)
    );
}

#[test]
fn completed_job_is_done_or_in_error() {
    let mut queue = ProfileQueue::new();
    let mut cache: ProfileCache<u32> = ProfileCache::new(None);
    queue.enqueue("rafis".to_string(), 0);
    queue.enqueue("mathi".to_string(), 1);
    queue.job_completed(&mut cache, "rafis".to_string(), Some(9), Timestamp::from_nanos(77));
    queue.job_completed(&mut cache, "mathi".to_string(), None, Timestamp::from_nanos(78));
    assert_eq!(
        queue.status("rafis".to_string(), JobState::Complete, 0),
        Some(RequestStatus::Done)
    );
    assert_eq!(
        queue.status("mathi".to_string(), JobState::Complete, 0),
        Some(RequestStatus::Error)
    );
    assert_eq!(cache.get("rafis".to_string()), Some((&9, Timestamp::from_nanos(77))));
    assert_eq!(cache.get("mathi".to_string()), None);
}
