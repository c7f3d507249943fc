use onetimer::api::{ApiAddRequest, ApiResponse};
use onetimer::utils::now;

#[test]
fn request_keeps_its_payload() {
    let r = ApiAddRequest::new("secret".to_string(), Some(3), Some(60));
    assert_eq!(r.get_data(), "secret");
    assert_eq!(r.get_max_clicks(), 3);
    assert_eq!(r.get_lifetime(), 60);
}

#[test]
fn absent_hints_give_the_defaults() {
    let r = ApiAddRequest::new("x".to_string(), None, None);
    assert_eq!(r.get_max_clicks(), 1);
    assert_eq!(r.get_lifetime(), 604_800);
}

#[test]
fn zero_hints_give_the_defaults() {
    let r = ApiAddRequest::new("x".to_string(), Some(0), Some(0));
    assert_eq!(r.get_max_clicks(), 1);
    assert_eq!(r.get_lifetime(), 604_800);
}

#[test]
fn one_hint_may_be_absent() {
    let r = ApiAddRequest::new("x".to_string(), Some(5), None);
    assert_eq!(r.get_max_clicks(), 5);
    assert_eq!(r.get_lifetime(), 604_800);
    let r = ApiAddRequest::new("x".to_string(), None, Some(1));
    assert_eq!(r.get_max_clicks(), 1);
    assert_eq!(r.get_lifetime(), 1);
}

#[test]
fn largest_hints_are_kept() {
    let r = ApiAddRequest::new(String::new(), Some(4_294_967_295), Some(i64::MAX));
    assert_eq!(r.get_data(), "");
    assert_eq!(r.get_max_clicks(), u32::MAX);
    assert_eq!(r.get_lifetime(), i64::MAX as u64);
}

#[test]
fn negative_hints_give_the_defaults() {
    let r = ApiAddRequest::new("s".to_string(), Some(-1), Some(-5));
    assert_eq!(r.get_data(), "s");
    assert_eq!(r.get_max_clicks(), 1);
    assert_eq!(r.get_lifetime(), 604_800);
    let r = ApiAddRequest::new("s".to_string(), Some(i64::MIN), Some(i64::MIN));
    assert_eq!(r.get_max_clicks(), 1);
    assert_eq!(r.get_lifetime(), 604_800);
}

#[test]
fn more_reads_than_a_record_counts_are_the_most_it_can() {
    let r = ApiAddRequest::new("s".to_string(), Some(4_294_967_296), Some(1));
    assert_eq!(r.get_max_clicks(), u32::MAX);
    assert_eq!(r.get_lifetime(), 1);
    let r = ApiAddRequest::new("s".to_string(), Some(i64::MAX), None);
    assert_eq!(r.get_max_clicks(), u32::MAX);
}

#[test]
fn new_response_is_ok_and_empty() {
    let before = now();
    let r = ApiResponse::new();
    let after = now();
    assert_eq!(r.message(), "");
    assert_eq!(r.status(), "OK");
    assert_eq!(r.expired(), 0);
    assert!(before <= r.created() && r.created() <= after);
}

#[test]
fn response_created_at_a_given_time() {
    let r = ApiResponse::created_at(1234);
    assert_eq!(r.message(), "");
    assert_eq!(r.status(), "OK");
    assert_eq!(r.created(), 1234);
    assert_eq!(r.expired(), 0);
}

#[test]
fn setters_change_one_field_each() {
    let mut r = ApiResponse::created_at(10);
    r.set_message("hello".to_string());
    assert_eq!(r.message(), "hello");
    assert_eq!(r.status(), "OK");
    assert_eq!(r.created(), 10);
    assert_eq!(r.expired(), 0);
    r.set_status("failed".to_string());
    assert_eq!(r.message(), "hello");
    assert_eq!(r.status(), "failed");
    assert_eq!(r.created(), 10);
    assert_eq!(r.expired(), 0);
    r.set_created(-5);
    assert_eq!(r.message(), "hello");
    assert_eq!(r.status(), "failed");
    assert_eq!(r.created(), -5);
    assert_eq!(r.expired(), 0);
    r.set_expired(77);
    assert_eq!(r.message(), "hello");
    assert_eq!(r.status(), "failed");
    assert_eq!(r.created(), -5);
    assert_eq!(r.expired(), 77);
}

#[test]
fn hide_sensitive_takes_the_times_out() {
    let mut r = ApiResponse::created_at(10);
    r.set_expired(20);
    r.set_message("m".to_string());
    r.set_status("s".to_string());
    r.hide_sensitive();
    assert_eq!(r.created(), 0);
    assert_eq!(r.expired(), 0);
    assert_eq!(r.message(), "m");
    assert_eq!(r.status(), "s");
}
