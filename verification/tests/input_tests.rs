use async_rust_tui::decode::Place;
use async_rust_tui::error::SncfAPIError;
use async_rust_tui::input::InputState;

fn stop(id: &str, name: &str) -> Place {
    Place {
        id: id.to_string(),
        name: name.to_string(),
        embedded_type: Some("stop_area".to_string()),
    }
}

#[test]
fn debounce_issues_one_query_after_the_threshold() {
    let mut input = InputState::new();
    input.edit("Gre".to_string(), 3, 1000);

    // Too early: the threshold has not passed.
    assert_eq!(input.tick(1100), None);
    // Threshold passed: exactly one query fires.
    assert_eq!(input.tick(1300), Some("Gre".to_string()));
    assert!(input.loading);
    // Loading: no second query while one is outstanding.
    assert_eq!(input.tick(1700), None);
}

#[test]
fn a_matching_completion_is_applied() {
    let mut input = InputState::new();
    input.edit("Gre".to_string(), 3, 1000);
    let query = input.tick(1300).unwrap();

    input.apply_fetch(query, Ok(vec![stop("s1", "Grenoble"), stop("s2", "Grenoble UGI")]));

    assert_eq!(input.suggestions.len(), 2);
    assert_eq!(input.selected, Some(0));
    assert!(!input.loading);
    assert_eq!(input.last_queried, "Gre");
    assert_eq!(input.error, None);
    // Applied and unchanged text: no new query fires.
    assert_eq!(input.tick(2000), None);
}

#[test]
fn a_stale_completion_is_discarded() {
    let mut input = InputState::new();
    input.edit("Gre".to_string(), 3, 1000);
    let query = input.tick(1300).unwrap();

    // The user keeps typing; the in-flight fetch becomes stale.
    input.edit("Gren".to_string(), 4, 1400);
    input.apply_fetch(query, Ok(vec![stop("s1", "Grenoble")]));

    // The stale result is never observable; loading was still cleared.
    assert_eq!(input.suggestions.len(), 0);
    assert_eq!(input.selected, None);
    assert!(!input.loading);
    assert_eq!(input.last_queried, "");
    // The newer text queries once its debounce passes.
    assert_eq!(input.tick(1700), Some("Gren".to_string()));
}

#[test]
fn an_empty_completion_clears_the_selection() {
    let mut input = InputState::new();
    input.edit("zzz".to_string(), 3, 0);
    let query = input.tick(300).unwrap();

    input.apply_fetch(query, Ok(vec![]));

    assert_eq!(input.suggestions.len(), 0);
    assert_eq!(input.selected, None);
}

#[test]
fn a_failed_completion_sets_the_field_error() {
    let mut input = InputState::new();
    input.edit("Gre".to_string(), 3, 0);
    let query = input.tick(300).unwrap();

    input.apply_fetch(query, Err(SncfAPIError::TransportError("connection refused".to_string())));

    assert_eq!(input.error, Some("HTTP request error: connection refused".to_string()));
    assert!(!input.loading);
    assert_eq!(input.suggestions.len(), 0);
}

#[test]
fn navigation_clamps_at_both_ends() {
    let mut input = InputState::new();
    input.edit("Gre".to_string(), 3, 0);
    let query = input.tick(300).unwrap();
    input.apply_fetch(query, Ok(vec![stop("a", "A"), stop("b", "B"), stop("c", "C")]));

    assert_eq!(input.selected, Some(0));
    input.navigate(false);
    assert_eq!(input.selected, Some(0));
    input.navigate(true);
    input.navigate(true);
    assert_eq!(input.selected, Some(2));
    input.navigate(true);
    assert_eq!(input.selected, Some(2));
    input.navigate(false);
    assert_eq!(input.selected, Some(1));
}

#[test]
fn confirm_gives_the_selected_place() {
    let mut input = InputState::new();
    assert!(input.confirm().is_none());

    input.edit("Gre".to_string(), 3, 0);
    let query = input.tick(300).unwrap();
    input.apply_fetch(query, Ok(vec![stop("a", "A"), stop("b", "B")]));
    input.navigate(true);

    let chosen = input.confirm().unwrap();
    assert_eq!(chosen.id, "b");
    assert_eq!(chosen.name, "B");
}

#[test]
fn the_cursor_is_clamped_into_the_text() {
    let mut input = InputState::new();
    input.edit("abc".to_string(), 10, 0);
    assert_eq!(input.cursor, 3);
    input.edit("abc".to_string(), 2, 0);
    assert_eq!(input.cursor, 2);
}
