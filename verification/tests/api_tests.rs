use async_rust_tui::api::{api_check, call_me, Call};

#[test]
fn fake() {
    assert_eq!(1, 1);
}

#[test]
#[should_panic(expected = "Houston, we have a problem !")]
fn fake_panic() {
    panic!("Houston, we have a problem !");
}

#[test]
fn call_me_ok_returns_ok() {
    let result = call_me(Call::Success);

    assert!(result.is_ok());
}

#[test]
fn call_me_ko_returns_api_error() {
    let result = call_me(Call::Failure);

    let err = result.expect_err("expected error for Call::Failure");
    assert_eq!(err.message(), "API error: This call fails");
}

#[test]
fn api_check_accepts_expected_key() {
    let result = api_check("change_me".to_string());

    assert!(result.is_ok());
}

#[test]
fn api_check_rejects_other_keys() {
    let result = api_check("nope".to_string());

    let err = result.expect_err("expected api_check to fail for invalid key");
    assert_eq!(err, "Wrong api key");
}
