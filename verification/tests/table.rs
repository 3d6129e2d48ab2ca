use link_shortener::dao::{
    delete_expired, get_by_id, get_statistics, save, update, update_statistics, LinkTable,
    STATISTICS_CAPACITY,
};
use link_shortener::error::StoreErrorKind;
use link_shortener::model::{Link, LinkStatistics};

fn hits_of(rows: &[LinkStatistics], referer: Option<&str>, user_agent: Option<&str>) -> Option<i64> {
    let matching: Vec<&LinkStatistics> = rows
        .iter()
        .filter(|row| row.referer.as_deref() == referer && row.user_agent.as_deref() == user_agent)
        .collect();
    assert!(matching.len() <= 1, "a pair of referer and user agent has one row at most");
    matching.first().and_then(|row| row.hits)
}

#[test]
fn new_table_is_empty() {
    let table = LinkTable::new();
    assert_eq!(table.link_count(), 0);
    assert_eq!(table.statistics_count(), 0);
    assert_eq!(get_by_id(&table, "YWJjZGVm").unwrap(), None);
    assert_eq!(STATISTICS_CAPACITY, i64::MAX as u64);
}

#[test]
fn save_returns_the_row_and_keeps_it() {
    let mut table = LinkTable::new();
    let link = save(&mut table, "YWJjZGVm", "https://example.com/", 10).unwrap();
    assert_eq!(link, Link { id: "YWJjZGVm".to_string(), target_url: "https://example.com/".to_string(), expiration: 10 });
    assert_eq!(table.link_count(), 1);
    assert_eq!(get_by_id(&table, "YWJjZGVm").unwrap(), Some(link));
}

#[test]
fn save_under_a_taken_identifier_is_a_unique_violation() {
    let mut table = LinkTable::new();
    save(&mut table, "YWJjZGVm", "https://example.com/", 10).unwrap();
    let error = save(&mut table, "YWJjZGVm", "https://other.example/", 20).unwrap_err();
    assert_eq!(error.kind, StoreErrorKind::Conflict);
    assert_eq!(error.cause, "duplicate key value violates unique constraint");
    assert_eq!(table.link_count(), 1);
    assert_eq!(get_by_id(&table, "YWJjZGVm").unwrap().unwrap().target_url, "https://example.com/");
}

#[test]
fn identifiers_are_compared_exactly() {
    let mut table = LinkTable::new();
    save(&mut table, "YWJjZGVm", "https://example.com/", 10).unwrap();
    save(&mut table, "ywjjzgvm", "https://lower.example/", 10).unwrap();
    assert_eq!(table.link_count(), 2);
    assert_eq!(get_by_id(&table, "ywjjzgvm").unwrap().unwrap().target_url, "https://lower.example/");
    assert_eq!(get_by_id(&table, "YWJjZGV").unwrap(), None);
}

#[test]
fn update_replaces_target_and_expiration_only() {
    let mut table = LinkTable::new();
    save(&mut table, "first001", "https://one.example/", 10).unwrap();
    save(&mut table, "second02", "https://two.example/", 20).unwrap();
    let link = update(&mut table, "first001", "https://new.example/", 30).unwrap();
    assert_eq!(link, Link { id: "first001".to_string(), target_url: "https://new.example/".to_string(), expiration: 30 });
    assert_eq!(get_by_id(&table, "first001").unwrap(), Some(link));
    assert_eq!(
        get_by_id(&table, "second02").unwrap(),
        Some(Link { id: "second02".to_string(), target_url: "https://two.example/".to_string(), expiration: 20 })
    );
    assert_eq!(table.link_count(), 2);
}

#[test]
fn update_of_unknown_identifier_finds_no_row() {
    let mut table = LinkTable::new();
    save(&mut table, "first001", "https://one.example/", 10).unwrap();
    let error = update(&mut table, "unknown1", "https://new.example/", 30).unwrap_err();
    assert_eq!(error.kind, StoreErrorKind::RowNotFound);
    assert_eq!(error.cause, "no rows returned by a statement that returns one");
    assert_eq!(table.link_count(), 1);
    assert_eq!(get_by_id(&table, "unknown1").unwrap(), None);
}

#[test]
fn delete_expired_removes_rows_up_to_and_at_the_instant() {
    let mut table = LinkTable::new();
    save(&mut table, "before01", "https://a.example/", 99).unwrap();
    save(&mut table, "exactly1", "https://b.example/", 100).unwrap();
    save(&mut table, "after001", "https://c.example/", 101).unwrap();
    assert_eq!(delete_expired(&mut table, 100), 2);
    assert_eq!(table.link_count(), 1);
    assert_eq!(get_by_id(&table, "before01").unwrap(), None);
    assert_eq!(get_by_id(&table, "exactly1").unwrap(), None);
    assert_eq!(get_by_id(&table, "after001").unwrap().unwrap().expiration, 101);
}

#[test]
fn delete_expired_on_empty_table_deletes_nothing() {
    let mut table = LinkTable::new();
    assert_eq!(delete_expired(&mut table, i64::MAX), 0);
    assert_eq!(delete_expired(&mut table, i64::MIN), 0);
}

#[test]
fn delete_expired_leaves_statistics() {
    let mut table = LinkTable::new();
    save(&mut table, "before01", "https://a.example/", 99).unwrap();
    update_statistics(&mut table, "before01", &None, &None).unwrap();
    assert_eq!(delete_expired(&mut table, 100), 1);
    assert_eq!(table.statistics_count(), 1);
    let rows = get_statistics(&table, "before01").unwrap();
    assert_eq!(rows, vec![LinkStatistics { hits: Some(1), referer: None, user_agent: None }]);
}

#[test]
fn identifier_is_free_again_after_the_sweep() {
    let mut table = LinkTable::new();
    save(&mut table, "before01", "https://a.example/", 99).unwrap();
    delete_expired(&mut table, 100);
    let link = save(&mut table, "before01", "https://again.example/", 500).unwrap();
    assert_eq!(link.target_url, "https://again.example/");
}

#[test]
fn update_statistics_appends_one_event() {
    let mut table = LinkTable::new();
    assert_eq!(update_statistics(&mut table, "YWJjZGVm", &Some("r".to_string()), &None).unwrap(), 1);
    assert_eq!(update_statistics(&mut table, "YWJjZGVm", &Some("r".to_string()), &None).unwrap(), 1);
    assert_eq!(table.statistics_count(), 2);
    assert_eq!(table.link_count(), 0);
}

#[test]
fn statistics_of_identifier_without_events_are_empty() {
    let mut table = LinkTable::new();
    assert_eq!(get_statistics(&table, "YWJjZGVm").unwrap(), Vec::<LinkStatistics>::new());
    save(&mut table, "YWJjZGVm", "https://example.com/", 10).unwrap();
    assert_eq!(get_statistics(&table, "YWJjZGVm").unwrap(), Vec::<LinkStatistics>::new());
    update_statistics(&mut table, "other001", &None, &None).unwrap();
    assert_eq!(get_statistics(&table, "YWJjZGVm").unwrap(), Vec::<LinkStatistics>::new());
}

#[test]
fn statistics_are_grouped_by_referer_and_user_agent() {
    let mut table = LinkTable::new();
    let site = Some("https://site.example/".to_string());
    let agent = Some("agent/1.0".to_string());
    let other_agent = Some("agent/2.0".to_string());
    update_statistics(&mut table, "YWJjZGVm", &site, &agent).unwrap();
    update_statistics(&mut table, "YWJjZGVm", &site, &other_agent).unwrap();
    update_statistics(&mut table, "YWJjZGVm", &site, &agent).unwrap();
    update_statistics(&mut table, "YWJjZGVm", &None, &agent).unwrap();
    update_statistics(&mut table, "YWJjZGVm", &None, &None).unwrap();
    update_statistics(&mut table, "YWJjZGVm", &site, &agent).unwrap();
    update_statistics(&mut table, "YWJjZGVm", &None, &None).unwrap();
    let rows = get_statistics(&table, "YWJjZGVm").unwrap();
    assert_eq!(rows.len(), 4);
    assert_eq!(hits_of(&rows, Some("https://site.example/"), Some("agent/1.0")), Some(3));
    assert_eq!(hits_of(&rows, Some("https://site.example/"), Some("agent/2.0")), Some(1));
    assert_eq!(hits_of(&rows, None, Some("agent/1.0")), Some(1));
    assert_eq!(hits_of(&rows, None, None), Some(2));
    assert_eq!(rows.iter().map(|row| row.hits.unwrap()).sum::<i64>(), 7);
}

#[test]
fn statistics_of_links_sharing_a_pair_are_counted_apart() {
    let mut table = LinkTable::new();
    let site = Some("https://site.example/".to_string());
    let agent = Some("agent/1.0".to_string());
    update_statistics(&mut table, "first001", &site, &agent).unwrap();
    update_statistics(&mut table, "second02", &site, &agent).unwrap();
    update_statistics(&mut table, "first001", &site, &agent).unwrap();
    update_statistics(&mut table, "second02", &site, &agent).unwrap();
    update_statistics(&mut table, "second02", &site, &agent).unwrap();
    let first = get_statistics(&table, "first001").unwrap();
    let second = get_statistics(&table, "second02").unwrap();
    assert_eq!(first, vec![LinkStatistics { hits: Some(2), referer: site.clone(), user_agent: agent.clone() }]);
    assert_eq!(second, vec![LinkStatistics { hits: Some(3), referer: site, user_agent: agent }]);
}

#[test]
fn empty_text_and_absent_text_are_different_groups() {
    let mut table = LinkTable::new();
    update_statistics(&mut table, "YWJjZGVm", &Some(String::new()), &None).unwrap();
    update_statistics(&mut table, "YWJjZGVm", &None, &None).unwrap();
    update_statistics(&mut table, "YWJjZGVm", &None, &Some(String::new())).unwrap();
    let rows = get_statistics(&table, "YWJjZGVm").unwrap();
    assert_eq!(rows.len(), 3);
    assert_eq!(hits_of(&rows, Some(""), None), Some(1));
    assert_eq!(hits_of(&rows, None, None), Some(1));
    assert_eq!(hits_of(&rows, None, Some("")), Some(1));
}
