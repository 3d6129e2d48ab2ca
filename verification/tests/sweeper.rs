use link_shortener::dao::{delete_expired, get_by_id, save, LinkTable};
use link_shortener::error::{StoreError, StoreErrorKind};
use link_shortener::routes::LogLevel;
use link_shortener::scheduler::{Sweeper, CLEANING_JOB_CRON_EXPRESSION};

#[test]
fn sweep_deletes_exactly_the_expired_link() {
    let now = 1_700_000_000_000_000;
    let mut table = LinkTable::new();
    save(&mut table, "expired1", "https://old.example/", now - 1).unwrap();
    save(&mut table, "current1", "https://new.example/", now + 3_600_000_000).unwrap();
    let untouched = get_by_id(&table, "current1").unwrap();
    assert_eq!(delete_expired(&mut table, now), 1);
    assert_eq!(get_by_id(&table, "expired1").unwrap(), None);
    assert_eq!(get_by_id(&table, "current1").unwrap(), untouched);
    assert_eq!(table.link_count(), 1);
}

#[test]
fn second_sweep_deletes_nothing() {
    let now = 1_700_000_000_000_000;
    let mut table = LinkTable::new();
    save(&mut table, "expired1", "https://old.example/", now - 1).unwrap();
    save(&mut table, "current1", "https://new.example/", now + 3_600_000_000).unwrap();
    assert_eq!(delete_expired(&mut table, now), 1);
    assert_eq!(delete_expired(&mut table, now), 0);
    assert_eq!(table.link_count(), 1);
    assert!(get_by_id(&table, "current1").unwrap().is_some());
}

#[test]
fn cadence_is_once_a_minute_at_second_one() {
    assert_eq!(CLEANING_JOB_CRON_EXPRESSION, "1/60 * * * * *");
}

#[test]
fn tick_at_rest_starts_a_sweep_at_the_given_instant() {
    let mut sweeper = Sweeper::new();
    assert_eq!(sweeper.tick_at(12_345), Some(12_345));
}

#[test]
fn ticks_during_a_sweep_are_passed_over() {
    let mut sweeper = Sweeper::new();
    assert_eq!(sweeper.tick_at(1), Some(1));
    assert_eq!(sweeper.tick_at(2), None);
    assert_eq!(sweeper.tick_at(3), None);
    assert_eq!(sweeper.tick(), None);
    assert!(sweeper.finished(Ok(0)).is_none());
    assert_eq!(sweeper.tick_at(4), Some(4));
}

#[test]
fn failed_sweep_is_logged_and_frees_the_next_tick() {
    let mut sweeper = Sweeper::new();
    assert_eq!(sweeper.tick_at(1), Some(1));
    let line = sweeper
        .finished(Err(StoreError { kind: StoreErrorKind::Other, cause: "connection lost".to_string() }))
        .unwrap();
    assert_eq!(line.level, LogLevel::Error);
    assert_eq!(line.message, "Error while deleting expired links: connection lost");
    assert_eq!(sweeper.tick_at(2), Some(2));
    assert!(sweeper.finished(Ok(3)).is_none());
}

#[test]
fn tick_reads_the_clock() {
    let mut sweeper = Sweeper::new();
    let cutoff = sweeper.tick().unwrap();
    // Later than 2020-01-01T00:00:00Z in microseconds.
    assert!(cutoff > 1_577_836_800_000_000);
    assert!(sweeper.finished(Ok(0)).is_none());
    assert!(sweeper.tick().is_some());
}
