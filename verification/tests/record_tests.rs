use onetimer::api::ApiAddRequest;
use onetimer::db::Record;
use onetimer::utils::now;

fn request(data: &str, clicks: i64, lifetime: i64) -> ApiAddRequest {
    ApiAddRequest::new(data.to_string(), Some(clicks), Some(lifetime))
}

#[test]
fn record_takes_the_budget_of_the_request() {
    let r = Record::created_at(&"id1".to_string(), &request("secret", 3, 60), 1000);
    assert_eq!(r.id(), "id1");
    assert_eq!(r.data(), "secret");
    assert_eq!(r.max_clicks(), 3);
    assert_eq!(r.created(), 1000);
    assert_eq!(r.lifetime(), 60);
}

#[test]
fn record_of_a_request_without_hints_is_single_use_for_a_week() {
    let msg = ApiAddRequest::new("secret".to_string(), None, None);
    let r = Record::created_at(&"id1".to_string(), &msg, 0);
    assert_eq!(r.max_clicks(), 1);
    assert_eq!(r.lifetime(), 604_800);
    let msg = ApiAddRequest::new("secret".to_string(), Some(0), Some(0));
    let r = Record::created_at(&"id1".to_string(), &msg, 0);
    assert_eq!(r.max_clicks(), 1);
    assert_eq!(r.lifetime(), 604_800);
}

#[test]
fn new_record_is_made_now() {
    let before = now();
    let r = Record::new(&"id1".to_string(), &request("secret", 2, 5));
    let after = now();
    assert!(before <= r.created() && r.created() <= after);
    assert_eq!(r.id(), "id1");
    assert_eq!(r.data(), "secret");
    assert_eq!(r.max_clicks(), 2);
    assert_eq!(r.lifetime(), 5);
    assert!(!r.expired());
}

#[test]
fn record_from_parts() {
    let r = Record::from_parts("a".to_string(), "b".to_string(), 7, -3, 0).unwrap();
    assert_eq!(r.id(), "a");
    assert_eq!(r.data(), "b");
    assert_eq!(r.max_clicks(), 7);
    assert_eq!(r.created(), -3);
    assert_eq!(r.lifetime(), 0);
}

#[test]
fn no_record_without_a_read() {
    assert!(Record::from_parts("a".to_string(), "b".to_string(), 0, 0, 10).is_none());
}

#[test]
fn clone_keeps_every_field() {
    let r = Record::from_parts("a".to_string(), "b".to_string(), 7, 11, 13).unwrap();
    let c = r.clone();
    assert_eq!(c.id(), "a");
    assert_eq!(c.data(), "b");
    assert_eq!(c.max_clicks(), 7);
    assert_eq!(c.created(), 11);
    assert_eq!(c.lifetime(), 13);
}

#[test]
fn expiry_is_strict() {
    let r = Record::from_parts("a".to_string(), "b".to_string(), 1, 100, 10).unwrap();
    assert!(!r.expired_at(100));
    assert!(!r.expired_at(109));
    assert!(!r.expired_at(110));
    assert!(r.expired_at(111));
    assert!(r.expired_at(i64::MAX));
    assert!(!r.expired_at(0));
    assert!(!r.expired_at(i64::MIN));
}

#[test]
fn expiry_does_not_overflow() {
    let r = Record::from_parts("a".to_string(), "b".to_string(), 1, i64::MIN, u64::MAX).unwrap();
    assert!(!r.expired_at(i64::MAX));
    let r = Record::from_parts("a".to_string(), "b".to_string(), 1, i64::MIN, 0).unwrap();
    assert!(r.expired_at(i64::MAX));
    assert!(!r.expired_at(i64::MIN));
    assert!(r.expired_at(i64::MIN + 1));
    let r = Record::from_parts("a".to_string(), "b".to_string(), 1, i64::MAX, 0).unwrap();
    assert!(!r.expired_at(i64::MIN));
    assert!(!r.expired_at(i64::MAX));
    let r = Record::from_parts("a".to_string(), "b".to_string(), 1, 0, 1 << 63).unwrap();
    assert!(!r.expired_at(i64::MAX));
}

#[test]
fn record_of_long_ago_has_expired() {
    let r = Record::from_parts("a".to_string(), "b".to_string(), 5, 0, 1).unwrap();
    assert!(r.expired());
}

#[test]
fn with_reads_of_changes_the_reads_only() {
    let stored = Record::from_parts("a".to_string(), "b".to_string(), 7, 11, 13).unwrap();
    let other = Record::from_parts("x".to_string(), "y".to_string(), 2, 1, 1).unwrap();
    let r = stored.with_reads_of(&other);
    assert_eq!(r.id(), "a");
    assert_eq!(r.data(), "b");
    assert_eq!(r.max_clicks(), 2);
    assert_eq!(r.created(), 11);
    assert_eq!(r.lifetime(), 13);
}

#[test]
fn read_in_time_counts_down() {
    let r = Record::from_parts("a".to_string(), "b".to_string(), 3, 100, 10).unwrap();
    let reading = r.read_at(105);
    assert_eq!(reading.payload, Some("b".to_string()));
    let rest = reading.remains.unwrap();
    assert_eq!(rest.id(), "a");
    assert_eq!(rest.data(), "b");
    assert_eq!(rest.max_clicks(), 2);
    assert_eq!(rest.created(), 100);
    assert_eq!(rest.lifetime(), 10);
}

#[test]
fn last_read_leaves_nothing() {
    let r = Record::from_parts("a".to_string(), "b".to_string(), 1, 100, 10).unwrap();
    let reading = r.read_at(110);
    assert_eq!(reading.payload, Some("b".to_string()));
    assert!(reading.remains.is_none());
}

#[test]
fn expired_read_gives_and_leaves_nothing() {
    let r = Record::from_parts("a".to_string(), "b".to_string(), 5, 100, 10).unwrap();
    let reading = r.read_at(111);
    assert_eq!(reading.payload, None);
    assert!(reading.remains.is_none());
}

#[test]
fn largest_budget_counts_down() {
    let r = Record::from_parts("a".to_string(), "b".to_string(), u32::MAX, 0, u64::MAX).unwrap();
    let reading = r.read_at(i64::MAX);
    assert_eq!(reading.payload, Some("b".to_string()));
    assert_eq!(reading.remains.unwrap().max_clicks(), u32::MAX - 1);
}
