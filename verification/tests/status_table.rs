use osu_pp_calc::clock::Timestamp;
use osu_pp_calc::player_cache::CalcStatus;
use osu_pp_calc::status_table::StatusTable;

fn at(n: u128) -> Timestamp {
    Timestamp::from_nanos(n)
}

#[test]
fn table_starts_empty() {
    let table = StatusTable::new();
    assert_eq!(table.get("rafis"), None);
}

#[test]
fn setters_overwrite_whatever_was_there() {
    let mut table = StatusTable::new();
    table.set_done("rafis".to_string());
    assert_eq!(table.get("rafis"), Some(CalcStatus::Done));
    table.set_pending("rafis".to_string(), 3, at(9));
    assert_eq!(table.get("rafis"), Some(CalcStatus::Pending(3, at(9))));
    table.set_calculating("rafis".to_string());
    assert_eq!(table.get("rafis"), Some(CalcStatus::Calculating));
    table.set_error("rafis".to_string());
    assert_eq!(table.get("rafis"), Some(CalcStatus::Error));
    assert_eq!(table.get("mathi"), None);
}

#[test]
fn ping_renews_a_pending_entry_and_no_other() {
    let mut table = StatusTable::new();
    table.set_pending("rafis".to_string(), 3, at(9));
    table.set_calculating("mathi".to_string());
    table.ping("rafis".to_string(), at(20));
    table.ping("mathi".to_string(), at(20));
    table.ping("nobody".to_string(), at(20));
    assert_eq!(table.get("rafis"), Some(CalcStatus::Pending(3, at(20))));
    assert_eq!(table.get("mathi"), Some(CalcStatus::Calculating));
    assert_eq!(table.get("nobody"), None);
}
