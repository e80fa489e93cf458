use ntscrs::error_slot::ErrorSlot;

#[test]
fn slot_shows_the_most_recent_error() {
    let mut slot: ErrorSlot<String> = ErrorSlot::new();
    assert_eq!(slot.last_error(), None);
    slot.handle_result::<()>(Err("first".to_string()));
    assert_eq!(slot.last_error(), Some(&"first".to_string()));
    slot.handle_result(Ok(3));
    assert_eq!(slot.last_error(), Some(&"first".to_string()));
    slot.handle_error("second".to_string());
    assert_eq!(slot.last_error(), Some(&"second".to_string()));
    slot.dismiss();
    assert_eq!(slot.last_error(), None);
}

#[test]
fn a_failing_action_does_not_stop_the_rest_of_the_frame() {
    let mut slot: ErrorSlot<String> = ErrorSlot::new();
    let mut applied = 0;
    let actions: Vec<Result<(), String>> =
        vec![Ok(()), Err("write failed".to_string()), Ok(()), Ok(())];
    for result in actions {
        applied += 1;
        slot.handle_result(result);
    }
    assert_eq!(applied, 4);
    assert_eq!(slot.last_error(), Some(&"write failed".to_string()));
}
