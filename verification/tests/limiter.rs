use std::collections::VecDeque;

use chat_hub::limiter::{count_request, judge, RateLimitEntry};

#[test]
fn sends_up_to_the_limit_are_admitted_and_recorded() {
    let mut q = VecDeque::new();
    assert_eq!(judge(&mut q, 3, 1_000), Ok(()));
    assert_eq!(judge(&mut q, 3, 2_000), Ok(()));
    assert_eq!(judge(&mut q, 3, 3_000), Ok(()));
    assert_eq!(q, VecDeque::from(vec![1_000, 2_000, 3_000]));
}

#[test]
fn the_send_past_the_limit_is_rejected_with_the_rest_of_the_window() {
    let mut q = VecDeque::from(vec![1_000u64, 2_000, 3_000]);
    assert_eq!(judge(&mut q, 3, 13_345), Err(48));
    assert_eq!(q, VecDeque::from(vec![1_000, 2_000, 3_000]));
}

#[test]
fn a_rejection_at_the_time_of_the_oldest_send_asks_for_the_whole_window() {
    let mut q = VecDeque::from(vec![5_000u64]);
    assert_eq!(judge(&mut q, 1, 5_000), Err(60));
}

#[test]
fn the_wait_is_never_under_one_second() {
    let mut q = VecDeque::from(vec![0u64]);
    assert_eq!(judge(&mut q, 1, 59_000), Err(1));
    assert_eq!(judge(&mut q, 1, 59_999), Err(1));
    assert_eq!(judge(&mut q, 1, 60_000), Err(1));
    assert_eq!(judge(&mut q, 1, 58_999), Err(2));
}

#[test]
fn a_send_of_exactly_sixty_seconds_ago_is_still_in_the_window() {
    let mut q = VecDeque::from(vec![0u64]);
    assert_eq!(judge(&mut q, 1, 60_000), Err(1));
    assert_eq!(q, VecDeque::from(vec![0]));
    assert_eq!(judge(&mut q, 1, 60_001), Ok(()));
    assert_eq!(q, VecDeque::from(vec![60_001]));
}

#[test]
fn waiting_the_reported_time_lets_the_next_send_through() {
    let mut q = VecDeque::new();
    assert_eq!(judge(&mut q, 2, 100), Ok(()));
    assert_eq!(judge(&mut q, 2, 200), Ok(()));
    let wait = judge(&mut q, 2, 10_150).unwrap_err();
    assert_eq!(wait, 50);
    assert_eq!(judge(&mut q, 2, 10_150 + 1000 * wait), Ok(()));
}

#[test]
fn eviction_stops_at_the_first_send_that_is_still_in_the_window() {
    let mut q = VecDeque::from(vec![0u64, 10, 50_000, 20]);
    assert_eq!(judge(&mut q, 5, 100_000), Ok(()));
    assert_eq!(q, VecDeque::from(vec![50_000, 20, 100_000]));
}

#[test]
fn a_clock_that_went_back_counts_as_no_time_passed() {
    let mut q = VecDeque::from(vec![9_000u64]);
    assert_eq!(judge(&mut q, 1, 1_000), Err(60));
}

#[test]
fn a_limit_of_zero_rejects_every_send() {
    let mut q = VecDeque::new();
    assert_eq!(judge(&mut q, 0, 10), Err(60));
    assert!(q.is_empty());
    assert_eq!(judge(&mut q, 0, 20), Err(60));
    assert_eq!(judge(&mut q, 0, 60_011), Err(60));
    assert!(q.is_empty());
    let mut q = VecDeque::from(vec![5_000u64]);
    assert_eq!(judge(&mut q, 0, 20_000), Err(45));
    assert_eq!(q, VecDeque::from(vec![5_000]));
}

#[test]
fn the_first_request_of_a_user_opens_a_window() {
    let (kept, verdict) = count_request(None, 2, 7_000);
    assert_eq!(verdict, Ok(()));
    assert_eq!(kept, RateLimitEntry { count: 1, window_start: 7_000 });
}

#[test]
fn requests_count_up_within_the_window() {
    let e = RateLimitEntry { count: 1, window_start: 7_000 };
    let (kept, verdict) = count_request(Some(e), 2, 8_000);
    assert_eq!(verdict, Ok(()));
    assert_eq!(kept, RateLimitEntry { count: 2, window_start: 7_000 });
}

#[test]
fn a_request_past_the_limit_is_told_the_seconds_that_remain() {
    let e = RateLimitEntry { count: 2, window_start: 7_000 };
    let (kept, verdict) = count_request(Some(e), 2, 7_500);
    assert_eq!(verdict, Err(59));
    assert_eq!(kept, e);
    let (_, verdict) = count_request(Some(e), 2, 7_000);
    assert_eq!(verdict, Err(60));
    let (_, verdict) = count_request(Some(e), 2, 66_999);
    assert_eq!(verdict, Err(0));
}

#[test]
fn a_window_of_sixty_seconds_is_over() {
    let e = RateLimitEntry { count: 2, window_start: 7_000 };
    let (kept, verdict) = count_request(Some(e), 2, 67_000);
    assert_eq!(verdict, Ok(()));
    assert_eq!(kept, RateLimitEntry { count: 1, window_start: 67_000 });
}

#[test]
fn a_limit_of_zero_refuses_every_request() {
    let (kept, verdict) = count_request(None, 0, 5);
    assert_eq!(verdict, Err(60));
    assert_eq!(kept, RateLimitEntry { count: 0, window_start: 5 });
}
