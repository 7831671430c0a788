use osu_pp_calc::clock::{TimeSpan, Timestamp, NANOS_PER_SEC};

#[test]
fn span_of_seconds_counts_nanoseconds() {
    assert_eq!(NANOS_PER_SEC, 1_000_000_000);
    assert_eq!(TimeSpan::from_secs(0).as_nanos(), 0);
    assert_eq!(TimeSpan::from_secs(15).as_nanos(), 15_000_000_000);
    assert_eq!(TimeSpan::from_secs(u64::MAX).as_nanos(), u64::MAX as u128 * 1_000_000_000);
    assert_eq!(TimeSpan::from_secs(u64::MAX).as_secs(), u64::MAX as u128);
}

#[test]
fn started_second_does_not_count() {
    assert_eq!(TimeSpan::from_nanos(1_999_999_999).as_secs(), 1);
    assert_eq!(TimeSpan::from_nanos(999_999_999).as_secs(), 0);
    assert_eq!(TimeSpan::from_nanos(2_000_000_000).as_secs(), 2);
}

#[test]
fn time_since_an_earlier_reading() {
    let early = Timestamp::from_nanos(100);
    let late = Timestamp::from_nanos(350);
    assert_eq!(late.since(early), TimeSpan::from_nanos(250));
    assert_eq!(late.since(late), TimeSpan::from_nanos(0));
    assert_eq!(late.as_nanos(), 350);
}

#[test]
fn clock_set_back_gives_no_time() {
    let early = Timestamp::from_nanos(100);
    let late = Timestamp::from_nanos(350);
    assert_eq!(early.since(late), TimeSpan::from_nanos(0));
}
