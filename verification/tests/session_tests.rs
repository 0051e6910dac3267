use async_rust_tui::decode::Place;
use async_rust_tui::session::{Mode, Session};

fn stop(id: &str, name: &str) -> Place {
    Place {
        id: id.to_string(),
        name: name.to_string(),
        embedded_type: Some("stop_area".to_string()),
    }
}

fn session_with_candidates() -> Session {
    let mut session = Session::new();
    session.edit("Gre".to_string(), 3, 0);
    let query = session.tick(300).unwrap();
    session.apply_fetch(query, Ok(vec![stop("s1", "Grenoble"), stop("s2", "Grenoble UGI")]));
    session
}

#[test]
fn a_new_session_chooses_the_origin() {
    let session = Session::new();
    assert_eq!(session.mode, Mode::ChoosingOrigin);
    assert!(session.chosen_origin.is_none());
    assert!(session.chosen_destination.is_none());
}

#[test]
fn confirm_with_a_selection_carries_the_origin_forward() {
    let mut session = session_with_candidates();

    session.confirm();

    assert_eq!(session.mode, Mode::ChoosingDestination);
    assert_eq!(session.chosen_origin.as_ref().unwrap().id, "s1");
    assert!(session.chosen_destination.is_none());
}

#[test]
fn confirm_without_a_selection_is_a_no_op() {
    let mut session = Session::new();

    session.confirm();

    assert_eq!(session.mode, Mode::ChoosingOrigin);
    assert!(session.chosen_origin.is_none());
}

#[test]
fn events_are_routed_to_the_active_mode() {
    let mut session = session_with_candidates();
    session.confirm();

    // Now in destination mode: edits must land on the destination field.
    session.edit("Par".to_string(), 3, 1000);
    assert_eq!(session.destination.text, "Par");
    assert_eq!(session.origin.text, "Gre");
}

#[test]
fn the_render_model_shows_the_active_mode() {
    let mut session = session_with_candidates();
    session.navigate(true);

    let model = session.render_model();
    assert_eq!(model.title, "Origin stop");
    assert_eq!(model.text, "Gre");
    assert_eq!(model.cursor, 3);
    assert_eq!(model.labels, vec!["Grenoble".to_string(), "Grenoble UGI".to_string()]);
    assert_eq!(model.highlighted, Some(1));

    session.confirm();
    let model = session.render_model();
    assert_eq!(model.title, "Destination stop");
    assert_eq!(model.text, "");
    assert_eq!(model.labels.len(), 0);
    assert_eq!(model.highlighted, None);
}
