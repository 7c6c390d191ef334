use lazy_eye::notification::{
    parse_activation, reminder_payload, same_text, Activation, BODY, DISMISS_ARGUMENT,
    DISMISS_LABEL, SCENARIO, START_TIMER_ARGUMENT, START_TIMER_LABEL,
};

#[test]
fn the_reminder_has_its_text_and_its_two_buttons() {
    let payload = reminder_payload();
    assert_eq!(payload.scenario, "reminder");
    assert_eq!(payload.body, "Time to let your eyes rest.");
    assert_eq!(payload.actions.len(), 2);
    assert_eq!(payload.actions[0].label, "Start Timer");
    assert_eq!(payload.actions[0].argument, "start_timer");
    assert_eq!(payload.actions[1].label, "Dismiss");
    assert_eq!(payload.actions[1].argument, "dismiss");
}

#[test]
fn the_reminder_is_the_same_every_time() {
    let first = reminder_payload();
    let second = reminder_payload();
    assert_eq!(first.scenario, second.scenario);
    assert_eq!(first.body, second.body);
    assert_eq!(first.actions.len(), second.actions.len());
    for (a, b) in first.actions.iter().zip(second.actions.iter()) {
        assert_eq!(a.label, b.label);
        assert_eq!(a.argument, b.argument);
    }
}

#[test]
fn the_constants_are_what_the_reminder_shows() {
    assert_eq!(SCENARIO, "reminder");
    assert_eq!(BODY, "Time to let your eyes rest.");
    assert_eq!(START_TIMER_LABEL, "Start Timer");
    assert_eq!(START_TIMER_ARGUMENT, "start_timer");
    assert_eq!(DISMISS_LABEL, "Dismiss");
    assert_eq!(DISMISS_ARGUMENT, "dismiss");
}

#[test]
fn the_buttons_arguments_are_recognised() {
    assert_eq!(parse_activation("start_timer"), Activation::StartTimer);
    assert_eq!(parse_activation("dismiss"), Activation::Dismiss);
}

#[test]
fn every_button_of_the_reminder_is_recognised() {
    let payload = reminder_payload();
    assert_eq!(parse_activation(&payload.actions[0].argument), Activation::StartTimer);
    assert_eq!(parse_activation(&payload.actions[1].argument), Activation::Dismiss);
}

#[test]
fn any_other_argument_is_unrecognised() {
    for argument in [
        "",
        " ",
        "Dismiss",
        "DISMISS",
        "dismiss ",
        " dismiss",
        "dismis",
        "dismisss",
        "start_timer\0",
        "start_time",
        "start-timer",
        "Start Timer",
        "start_timer;dismiss",
        "snooze",
        "d\u{131}sm\u{131}ss",
        "\u{1F441}",
    ] {
        assert_eq!(parse_activation(argument), Activation::Unrecognized, "{:?}", argument);
    }
}

#[test]
fn same_text_compares_character_by_character() {
    assert!(same_text("", ""));
    assert!(same_text("dismiss", "dismiss"));
    assert!(same_text("na\u{ef}ve \u{1F441}", "na\u{ef}ve \u{1F441}"));
    assert!(!same_text("dismiss", "dismisS"));
    assert!(!same_text("dismiss", "dismis"));
    assert!(!same_text("", "a"));
    assert!(!same_text("a", ""));
    assert!(!same_text("\u{e9}", "e\u{301}"));
    assert!(!same_text("ab", "ba"));
}
