use async_rust_tui::supervisor::{
    producer_message, refresh_task_result_to_err, supervise_step, LoopAction, RecvPoll,
    REFRESH_CHANNEL_CAPACITY,
};

#[test]
fn refresh_task_result_ok_becomes_error() {
    let err = refresh_task_result_to_err(Ok(())).unwrap_err();
    assert_eq!(
        err.message,
        "😵 refresh task stopped unexpectedly. See logs for details."
    );
}

#[test]
fn refresh_task_result_join_error_panics_message() {
    let join_err = "task 7 panicked with message \"boom\"".to_string();

    let err = refresh_task_result_to_err(Err(join_err)).unwrap_err();
    assert!(err.message.contains("💥 refresh task panicked:"));
    assert!(err.message.contains("boom"));
    assert_eq!(
        err.message,
        "💥 refresh task panicked: task 7 panicked with message \"boom\". See logs for details."
    );
}

#[test]
fn a_finished_task_is_fatal_whatever_the_outcome() {
    let clean = supervise_step(Some(Ok(())), RecvPoll::Empty);
    match clean {
        LoopAction::Fatal(f) => assert_eq!(
            f.message,
            "😵 refresh task stopped unexpectedly. See logs for details."
        ),
        other => panic!("expected a fatal action, got {:?}", other),
    }

    let faulted = supervise_step(Some(Err("boom".to_string())), RecvPoll::Empty);
    match faulted {
        LoopAction::Fatal(f) => assert_eq!(
            f.message,
            "💥 refresh task panicked: boom. See logs for details."
        ),
        other => panic!("expected a fatal action, got {:?}", other),
    }
}

#[test]
fn an_empty_and_a_disconnected_channel_are_tolerated() {
    assert!(matches!(supervise_step(None, RecvPoll::Empty), LoopAction::Continue));
    assert!(matches!(supervise_step(None, RecvPoll::Disconnected), LoopAction::Continue));
}

#[test]
fn a_received_value_is_merged_and_stop_ends_the_loop() {
    match supervise_step(None, RecvPoll::Data("Hello 3".to_string())) {
        LoopAction::Merge(m) => assert_eq!(m, "Hello 3"),
        other => panic!("expected a merge action, got {:?}", other),
    }
    assert!(matches!(
        supervise_step(None, RecvPoll::Data("stop".to_string())),
        LoopAction::Stop
    ));
}

#[test]
fn the_producer_counts_and_then_stops() {
    assert_eq!(producer_message(0), "Hello 0");
    assert_eq!(producer_message(3), "Hello 3");
    assert_eq!(producer_message(12), "Hello 12");
    assert_eq!(producer_message(5), "stop");
    assert_eq!(REFRESH_CHANNEL_CAPACITY, 5);
}
