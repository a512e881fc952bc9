use homechatbot::dispatch::{fixed_reply, message_triage, Triage, HELP_REPLY, UNKNOWN_REPLY};

#[test]
fn test_in_any_case_and_spacing_is_running() {
    assert!(matches!(message_triage("TEST"), Triage::Running));
    assert!(matches!(message_triage(" test "), Triage::Running));
    assert_eq!(fixed_reply(&message_triage("TeSt")), Some("running"));
}

#[test]
fn help_reply() {
    assert!(matches!(message_triage("Help"), Triage::Help));
    assert_eq!(fixed_reply(&message_triage("help")), Some(HELP_REPLY));
}

#[test]
fn empty_or_single_word_is_unknown() {
    assert!(matches!(message_triage(""), Triage::Unknown));
    assert!(matches!(message_triage("groceries"), Triage::Unknown));
    assert!(matches!(message_triage("gro"), Triage::Unknown));
    assert_eq!(fixed_reply(&message_triage("hello")), Some(UNKNOWN_REPLY));
}

#[test]
fn unknown_command_word() {
    assert!(matches!(message_triage("shop list"), Triage::Unknown));
    assert!(matches!(message_triage("gro-list x"), Triage::Unknown));
}

#[test]
fn grocery_commands_are_routed() {
    match message_triage("GRO list Dairy") {
        Triage::Grocery(rest) => assert_eq!(rest, "list Dairy"),
        _ => panic!("expected grocery"),
    }
    match message_triage("grocery \n add Dairy\nMilk") {
        Triage::Grocery(rest) => assert_eq!(rest, "add Dairy\nMilk"),
        _ => panic!("expected grocery"),
    }
    assert!(fixed_reply(&message_triage("gro list")).is_none());
}

#[test]
fn bgchan_is_routed() {
    match message_triage("bgchan pol") {
        Triage::Bgchan(rest) => assert_eq!(rest, "pol"),
        _ => panic!("expected bgchan"),
    }
}
