use client_auth::{RefreshPolicy, TokenResponse, DEFAULT_VALID_FOR, SAFETY_MARGIN};

#[test]
fn standard_policy_is_fifteen_and_three_hundred_seconds() {
    assert_eq!(SAFETY_MARGIN, 15);
    assert_eq!(DEFAULT_VALID_FOR, 300);
    let policy = RefreshPolicy::standard();
    assert_eq!(policy.safety_margin, 15);
    assert_eq!(policy.default_valid_for, 300);
    assert_eq!(RefreshPolicy::default(), policy);
}

#[test]
fn stale_once_elapsed_reaches_validity_less_margin() {
    let policy = RefreshPolicy::standard();
    assert!(!policy.is_stale(0, 300, 0));
    assert!(!policy.is_stale(0, 300, 284));
    assert!(policy.is_stale(0, 300, 285));
    assert!(policy.is_stale(0, 300, 290));
    assert!(policy.is_stale(0, 300, 300));
    assert!(policy.is_stale(0, 300, 10_000));

    assert!(!policy.is_stale(0, 100, 84));
    assert!(policy.is_stale(0, 100, 85));
    assert!(policy.is_stale(0, 100, 90));

    assert!(!policy.is_stale(500, 100, 584));
    assert!(policy.is_stale(500, 100, 585));
}

#[test]
fn stale_at_once_when_validity_is_within_the_margin() {
    let policy = RefreshPolicy::standard();
    for valid_for in [0, 1, 14, 15] {
        assert!(policy.is_stale(100, valid_for, 100));
        assert!(policy.is_stale(100, valid_for, 101));
        assert!(policy.is_stale(100, valid_for, 99));
    }
    assert!(!policy.is_stale(100, 16, 100));
    assert!(policy.is_stale(100, 16, 101));
}

#[test]
fn stale_when_the_clock_reads_before_issuance() {
    let policy = RefreshPolicy::standard();
    assert!(policy.is_stale(100, 300, 99));
    assert!(policy.is_stale(u64::MAX, u64::MAX, 0));
    assert!(!policy.is_stale(u64::MAX, u64::MAX, u64::MAX));
}

#[test]
fn zero_margin_serves_until_expiry() {
    let policy = RefreshPolicy { safety_margin: 0, default_valid_for: 10 };
    assert!(!policy.is_stale(0, 10, 9));
    assert!(policy.is_stale(0, 10, 10));
    assert!(policy.is_stale(0, 0, 0));
}

#[test]
fn largest_margin_is_always_stale() {
    let policy = RefreshPolicy { safety_margin: u64::MAX, default_valid_for: 10 };
    assert!(policy.is_stale(0, u64::MAX, 0));
    assert!(policy.is_stale(0, 10, 5));
}

#[test]
fn response_names_its_validity_or_falls_back() {
    let named = TokenResponse::new("t".to_string(), Some(42));
    assert_eq!(named.valid_for(300), 42);
    assert_eq!(named.valid_for(0), 42);

    let zero = TokenResponse::new("t".to_string(), Some(0));
    assert_eq!(zero.valid_for(300), 0);

    let silent = TokenResponse::new("t".to_string(), None);
    assert_eq!(silent.valid_for(300), 300);
    assert_eq!(silent.valid_for(7), 7);
    assert_eq!(silent.valid_for(DEFAULT_VALID_FOR), 300);
}

#[test]
fn response_holds_what_it_was_made_of() {
    let response = TokenResponse::new("opaque-token".to_string(), Some(3_600));
    assert_eq!(response.access_token, "opaque-token");
    assert_eq!(response.expires_in, Some(3_600));
    assert!(response == TokenResponse { access_token: "opaque-token".to_string(), expires_in: Some(3_600) });
    assert!(response.clone() == response);
}
