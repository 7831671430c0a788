use osu_pp_calc::clock::{TimeSpan, Timestamp};
use osu_pp_calc::player_cache::{
    admission, CalcStatus, EnqueueResult, NextJob, PlayerCache, COOLDOWN_SECS, STALE_AFTER_SECS,
};
use osu_pp_calc::profile_cache::CacheEntry;
use osu_pp_calc::profile_queue::RequestStatus;

const SEC: u128 = 1_000_000_000;

fn secs(n: u64) -> Timestamp {
    Timestamp::from_nanos(n as u128 * SEC)
}

fn cooldown() -> TimeSpan {
    TimeSpan::from_secs(15 * 60)
}

fn fresh() -> PlayerCache<u32> {
    PlayerCache::with_cooldown(cooldown(), None)
}

fn id(name: &str) -> String {
    name.to_string()
}

/// A cache in which `name` is done with the result 7, completed at `at`.
fn done(name: &str, at: Timestamp) -> PlayerCache<u32> {
    let mut cache = fresh();
    assert_eq!(cache.calculate_request(id(name), false, secs(0), secs(0)), EnqueueResult::Enqueued);
    assert_eq!(cache.take_job(secs(0)), NextJob::Calculate(id(name)));
    assert!(cache.finish_job(id(name), Some(7), at));
    cache
}

#[test]
fn unknown_identity_has_no_status_and_no_result() {
    let mut cache = fresh();
    assert_eq!(cache.check_status(id("nobody")), None);
    assert_eq!(cache.get_performance(id("nobody")), None);
    cache.calculate_request(id("rafis"), false, secs(1), secs(1));
    cache.ping(id("nobody"), secs(2));
    cache.take_job(secs(2));
    cache.finish_job(id("nobody"), Some(3), secs(3));
    cache.finish_job(id("rafis"), Some(4), secs(3));
    assert_eq!(cache.check_status(id("nobody")), None);
    assert_eq!(cache.get_performance(id("nobody")), None);
    assert_eq!(cache.status(id("nobody"), secs(4)), None);
}

#[test]
fn first_request_is_enqueued_and_pending() {
    let mut cache = fresh();
    let answer = cache.calculate_request(id("rafis"), false, secs(100), secs(7));
    assert_eq!(answer, EnqueueResult::Enqueued);
    assert_eq!(cache.check_status(id("rafis")), Some(CalcStatus::Pending(1, secs(7))));
    assert_eq!(cache.get_last_in_queue(), 1);
    assert_eq!(cache.get_current_in_queue(), 0);
    assert_eq!(cache.get_performance(id("rafis")), None);
}

#[test]
fn requested_identity_never_becomes_unknown_again() {
    let mut cache = fresh();
    cache.calculate_request(id("mathi"), false, secs(1), secs(1));
    assert!(cache.check_status(id("mathi")).is_some());
    cache.take_job(secs(2));
    assert_eq!(cache.check_status(id("mathi")), Some(CalcStatus::Calculating));
    cache.finish_job(id("mathi"), None, secs(3));
    assert_eq!(cache.check_status(id("mathi")), Some(CalcStatus::Error));
    cache.calculate_request(id("mathi"), false, secs(4), secs(4));
    assert_eq!(cache.check_status(id("mathi")), Some(CalcStatus::Pending(2, secs(4))));
    cache.take_job(secs(5));
    cache.finish_job(id("mathi"), Some(11), secs(6));
    assert_eq!(cache.check_status(id("mathi")), Some(CalcStatus::Done));
}

#[test]
fn second_request_in_a_row_adds_no_job() {
    let mut cache = fresh();
    assert_eq!(cache.calculate_request(id("rafis"), false, secs(1), secs(1)), EnqueueResult::Enqueued);
    assert_eq!(cache.calculate_request(id("rafis"), false, secs(1), secs(2)), EnqueueResult::Enqueued);
    assert_eq!(cache.calculate_request(id("rafis"), true, secs(1), secs(3)), EnqueueResult::Enqueued);
    assert_eq!(cache.check_status(id("rafis")), Some(CalcStatus::Pending(1, secs(1))));
    assert_eq!(cache.get_last_in_queue(), 1);
    assert_eq!(cache.take_job(secs(3)), NextJob::Calculate(id("rafis")));
    assert_eq!(cache.take_job(secs(3)), NextJob::Idle);
    // Nor while the calculation runs.
    assert_eq!(cache.calculate_request(id("rafis"), false, secs(4), secs(4)), EnqueueResult::Enqueued);
    assert_eq!(cache.check_status(id("rafis")), Some(CalcStatus::Calculating));
    assert_eq!(cache.take_job(secs(4)), NextJob::Idle);
}

#[test]
fn done_result_bears_the_time_of_its_completion() {
    let mut cache = fresh();
    cache.calculate_request(id("rafis"), false, secs(10), secs(1));
    cache.calculate_request(id("rafis"), false, secs(11), secs(2));
    assert_eq!(cache.take_job(secs(3)), NextJob::Calculate(id("rafis")));
    assert!(cache.finish_job(id("rafis"), Some(42), secs(20)));
    assert_eq!(cache.check_status(id("rafis")), Some(CalcStatus::Done));
    assert_eq!(cache.get_performance(id("rafis")), Some(&42));
    let (result, at) = cache.results().get(id("rafis")).unwrap();
    assert_eq!(*result, 42);
    assert_eq!(at, secs(20));
    assert!(at.as_nanos() >= secs(11).as_nanos());
}

#[test]
fn unforced_request_for_a_result_is_already_done() {
    let mut cache = done("rafis", secs(100));
    assert_eq!(
        cache.calculate_request(id("rafis"), false, secs(100_000), secs(5)),
        EnqueueResult::AlreadyDone
    );
    assert_eq!(cache.check_status(id("rafis")), Some(CalcStatus::Done));
    assert_eq!(cache.take_job(secs(5)), NextJob::Idle);
}

#[test]
fn forcing_a_fresh_result_tells_the_rest_of_the_cooldown() {
    let mut cache = done("rafis", secs(1000));
    let answer = cache.calculate_request(id("rafis"), true, secs(1000 + 60), secs(5));
    assert_eq!(answer, EnqueueResult::CantForce(TimeSpan::from_secs(14 * 60)));
    match answer {
        EnqueueResult::CantForce(left) => {
            assert_eq!(left.as_nanos(), 840 * SEC);
            assert_eq!(left.as_secs(), 840);
            assert!(left.as_nanos() > 0);
        }
        _ => panic!("a fresh result was forced"),
    }
    assert_eq!(cache.check_status(id("rafis")), Some(CalcStatus::Done));
    assert_eq!(cache.get_last_in_queue(), 1);
    assert_eq!(cache.take_job(secs(5)), NextJob::Idle);
    // One nanosecond before the cooldown ends, one nanosecond is left.
    let almost = Timestamp::from_nanos(1000 * SEC + 900 * SEC - 1);
    assert_eq!(
        cache.calculate_request(id("rafis"), true, almost, secs(5)),
        EnqueueResult::CantForce(TimeSpan::from_nanos(1))
    );
}

#[test]
fn forcing_a_result_from_the_future_is_refused_for_the_whole_cooldown() {
    let mut cache = done("rafis", secs(1000));
    assert_eq!(
        cache.calculate_request(id("rafis"), true, secs(10), secs(5)),
        EnqueueResult::CantForce(cooldown())
    );
}

#[test]
fn forcing_after_the_cooldown_replaces_the_result() {
    let mut cache = done("rafis", secs(1000));
    let now = secs(1000 + 15 * 60);
    assert_eq!(cache.calculate_request(id("rafis"), true, now, secs(50)), EnqueueResult::Enqueued);
    assert_eq!(cache.check_status(id("rafis")), Some(CalcStatus::Pending(2, secs(50))));
    // The old result is served until the new one is there.
    assert_eq!(cache.get_performance(id("rafis")), Some(&7));
    assert_eq!(cache.take_job(secs(51)), NextJob::Calculate(id("rafis")));
    assert!(cache.finish_job(id("rafis"), Some(8), secs(2000)));
    assert_eq!(cache.check_status(id("rafis")), Some(CalcStatus::Done));
    let (result, at) = cache.results().get(id("rafis")).unwrap();
    assert_eq!((*result, at), (8, secs(2000)));
}

#[test]
fn forcing_after_the_cooldown_does_not_double_a_job_under_way() {
    let mut cache = done("rafis", secs(1000));
    let now = secs(5000);
    assert_eq!(cache.calculate_request(id("rafis"), true, now, secs(50)), EnqueueResult::Enqueued);
    assert_eq!(cache.calculate_request(id("rafis"), true, now, secs(51)), EnqueueResult::Enqueued);
    assert_eq!(cache.get_last_in_queue(), 2);
    assert_eq!(cache.take_job(secs(52)), NextJob::Calculate(id("rafis")));
    assert_eq!(cache.calculate_request(id("rafis"), true, now, secs(53)), EnqueueResult::Enqueued);
    assert_eq!(cache.take_job(secs(54)), NextJob::Idle);
}

#[test]
fn stale_pending_job_is_dropped_without_calculation() {
    let mut cache = fresh();
    cache.calculate_request(id("gone"), false, secs(0), secs(100));
    let late = Timestamp::from_nanos((100 + STALE_AFTER_SECS) as u128 * SEC + 1);
    assert_eq!(cache.take_job(late), NextJob::Abandoned(id("gone")));
    assert_eq!(cache.check_status(id("gone")), Some(CalcStatus::Error));
    assert_eq!(cache.get_performance(id("gone")), None);
    assert_eq!(cache.get_current_in_queue(), 0);
    assert_eq!(cache.take_job(late), NextJob::Idle);
    // A report for it does not count.
    assert!(!cache.finish_job(id("gone"), Some(1), late));
    assert_eq!(cache.check_status(id("gone")), Some(CalcStatus::Error));
    assert_eq!(cache.get_performance(id("gone")), None);
}

#[test]
fn job_pinged_in_time_is_calculated() {
    let mut cache = fresh();
    cache.calculate_request(id("here"), false, secs(0), secs(100));
    // Exactly fifteen seconds are not too long.
    assert_eq!(cache.take_job(secs(115)), NextJob::Calculate(id("here")));

    let mut cache = fresh();
    cache.calculate_request(id("here"), false, secs(0), secs(100));
    cache.ping(id("here"), secs(110));
    assert_eq!(cache.check_status(id("here")), Some(CalcStatus::Pending(1, secs(110))));
    assert_eq!(cache.take_job(secs(120)), NextJob::Calculate(id("here")));
    assert_eq!(cache.get_current_in_queue(), 1);
}

#[test]
fn ping_touches_pending_requests_only() {
    let mut cache = done("rafis", secs(10));
    cache.ping(id("rafis"), secs(20));
    assert_eq!(cache.check_status(id("rafis")), Some(CalcStatus::Done));
    cache.ping(id("nobody"), secs(20));
    assert_eq!(cache.check_status(id("nobody")), None);
}

#[test]
fn jobs_are_taken_in_the_order_of_their_requests() {
    let mut cache = fresh();
    cache.calculate_request(id("a"), false, secs(0), secs(1));
    cache.calculate_request(id("b"), false, secs(0), secs(2));
    cache.calculate_request(id("c"), false, secs(0), secs(3));
    assert_eq!(cache.check_status(id("c")), Some(CalcStatus::Pending(3, secs(3))));
    assert_eq!(cache.status(id("c"), secs(4)), Some(RequestStatus::Pending(3)));
    assert_eq!(cache.take_job(secs(5)), NextJob::Calculate(id("a")));
    assert_eq!(cache.get_current_in_queue(), 1);
    assert_eq!(cache.status(id("a"), secs(5)), Some(RequestStatus::Calculating));
    assert_eq!(cache.status(id("c"), secs(6)), Some(RequestStatus::Pending(2)));
    assert_eq!(cache.check_status(id("c")), Some(CalcStatus::Pending(3, secs(6))));
    assert_eq!(cache.take_job(secs(7)), NextJob::Calculate(id("b")));
    assert_eq!(cache.status(id("c"), secs(8)), Some(RequestStatus::Pending(1)));
    cache.finish_job(id("b"), None, secs(9));
    cache.finish_job(id("a"), Some(5), secs(9));
    assert_eq!(cache.status(id("a"), secs(9)), Some(RequestStatus::Done));
    assert_eq!(cache.status(id("b"), secs(9)), Some(RequestStatus::Error));
    assert_eq!(cache.take_job(secs(10)), NextJob::Calculate(id("c")));
    assert_eq!(cache.take_job(secs(10)), NextJob::Idle);
}

#[test]
fn failed_calculation_leaves_the_results_alone() {
    let mut cache = done("rafis", secs(1000));
    cache.calculate_request(id("rafis"), true, secs(9000), secs(1));
    cache.take_job(secs(2));
    assert!(cache.finish_job(id("rafis"), None, secs(9500)));
    assert_eq!(cache.check_status(id("rafis")), Some(CalcStatus::Error));
    let (result, at) = cache.results().get(id("rafis")).unwrap();
    assert_eq!((*result, at), (7, secs(1000)));
}

#[test]
fn cache_starts_with_the_loaded_results() {
    let loaded = vec![
        CacheEntry { identity: id("rafis"), result: 1u32, completed_at: secs(5) },
        CacheEntry { identity: id("mathi"), result: 2u32, completed_at: secs(6) },
    ];
    let mut cache = PlayerCache::new(Some(loaded));
    assert_eq!(cache.get_performance(id("rafis")), Some(&1));
    assert_eq!(cache.get_performance(id("mathi")), Some(&2));
    assert_eq!(cache.check_status(id("rafis")), None);
    assert_eq!(
        cache.calculate_request(id("rafis"), false, secs(7), secs(7)),
        EnqueueResult::AlreadyDone
    );
    assert_eq!(
        cache.calculate_request(id("mathi"), true, secs(6 + 900), secs(7)),
        EnqueueResult::Enqueued
    );
    assert_eq!(cache.check_status(id("mathi")), Some(CalcStatus::Pending(1, secs(7))));
}

#[test]
fn admission_follows_result_force_and_age() {
    let cool = TimeSpan::from_secs(900);
    assert_eq!(admission(None, false, secs(1), cool), EnqueueResult::Enqueued);
    assert_eq!(admission(None, true, secs(1), cool), EnqueueResult::Enqueued);
    assert_eq!(admission(Some(secs(1)), false, secs(5000), cool), EnqueueResult::AlreadyDone);
    assert_eq!(
        admission(Some(secs(100)), true, secs(400), cool),
        EnqueueResult::CantForce(TimeSpan::from_secs(600))
    );
    assert_eq!(admission(Some(secs(100)), true, secs(1000), cool), EnqueueResult::Enqueued);
    assert_eq!(admission(Some(secs(100)), true, secs(1001), cool), EnqueueResult::Enqueued);
    assert_eq!(
        admission(Some(secs(100)), true, secs(50), cool),
        EnqueueResult::CantForce(cool)
    );
    assert_eq!(
        admission(Some(secs(100)), true, secs(100), TimeSpan::from_secs(0)),
        EnqueueResult::Enqueued
    );
}

#[test]
fn cooldown_is_fifteen_minutes_unless_another_is_given() {
    assert_eq!(COOLDOWN_SECS, 900);
    assert_eq!(STALE_AFTER_SECS, 15);
    let loaded = vec![CacheEntry { identity: id("rafis"), result: 1u32, completed_at: secs(0) }];
    let mut cache = PlayerCache::new(Some(loaded));
    assert_eq!(
        cache.calculate_request(id("rafis"), true, secs(899), secs(0)),
        EnqueueResult::CantForce(TimeSpan::from_secs(1))
    );
    assert_eq!(cache.calculate_request(id("rafis"), true, secs(900), secs(0)), EnqueueResult::Enqueued);

    let loaded = vec![CacheEntry { identity: id("rafis"), result: 1u32, completed_at: secs(0) }];
    let mut cache = PlayerCache::with_cooldown(TimeSpan::from_secs(60), Some(loaded));
    assert_eq!(
        cache.calculate_request(id("rafis"), true, secs(59), secs(0)),
        EnqueueResult::CantForce(TimeSpan::from_secs(1))
    );
    assert_eq!(cache.calculate_request(id("rafis"), true, secs(60), secs(0)), EnqueueResult::Enqueued);
}
