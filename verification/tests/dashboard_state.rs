use emergency_triage::state::EmergencyApp;

#[test]
fn startup_state() {
    let app = EmergencyApp::default();
    assert_eq!(app.patients.len(), 4);
    assert_eq!(app.hospitals.len(), 4);
    assert_eq!(app.specialists.len(), 5);
    assert_eq!(app.chat_messages.len(), 4);
    assert_eq!(app.active_tab, 0);
    assert!(app.chat_input.is_empty());
    assert_eq!(app.selected_patient, None);
    assert_eq!(app.ambulance_available, 12);
    assert_eq!(app.ambulance_en_route, 8);
    assert_eq!(app.ambulance_at_scene, 3);
}

#[test]
fn startup_state_at_a_fixed_time() {
    let now = 1_700_000_000;
    let app = EmergencyApp::new(now);
    assert_eq!(app.patients[0].timestamp, now);
    assert_eq!(app.patients[3].timestamp, now);
    assert_eq!(app.chat_messages[0].timestamp, now - 60);
    assert_eq!(app.chat_messages[3].timestamp, now - 240);
}

#[test]
fn sending_a_message_appends_it() {
    let mut app = EmergencyApp::new(1_700_000_000);
    app.chat_input = "Send backup to Trauma Bay 1".to_string();
    let sent = app.send_chat_message(7, 1_700_000_100);
    assert!(sent);
    assert_eq!(app.chat_messages.len(), 5);
    let last = app.chat_messages.last().unwrap();
    assert_eq!(last.id, 7);
    assert_eq!(last.sender, "Dr. Ahmed Al-Mansoori");
    assert_eq!(last.message, "Send backup to Trauma Bay 1");
    assert_eq!(last.timestamp, 1_700_000_100);
    assert!(!last.urgent);
    assert!(app.chat_input.is_empty());
}

#[test]
fn sending_an_empty_input_does_nothing() {
    let mut app = EmergencyApp::new(1_700_000_000);
    let sent = app.send_chat_message(7, 1_700_000_100);
    assert!(!sent);
    assert_eq!(app.chat_messages.len(), 4);
    assert!(app.chat_input.is_empty());
}

#[test]
fn sending_a_blank_input_does_nothing() {
    let mut app = EmergencyApp::new(1_700_000_000);
    app.chat_input = "   \t  ".to_string();
    let sent = app.send_chat_message(7, 1_700_000_100);
    assert!(!sent);
    assert_eq!(app.chat_messages.len(), 4);
    assert_eq!(app.chat_input, "   \t  ");
}

#[test]
fn blankness_follows_unicode_whitespace() {
    let mut app = EmergencyApp::new(1_700_000_000);
    // A non-breaking space and a line break are whitespace too.
    app.chat_input = "\u{00A0}\n".to_string();
    assert!(!app.send_chat_message(7, 1_700_000_100));
    // Whitespace around one visible word still sends.
    app.chat_input = "  ok \n".to_string();
    assert!(app.send_chat_message(8, 1_700_000_200));
    assert_eq!(app.chat_messages.last().unwrap().message, "  ok \n");
}

#[test]
fn sending_with_the_clock_stamps_the_message() {
    let mut app = EmergencyApp::default();
    app.chat_input = "Clear Trauma Bay 2".to_string();
    let sent = app.send_chat_message_now();
    assert!(sent);
    assert_eq!(app.chat_messages.len(), 5);
    let last = app.chat_messages.last().unwrap();
    assert_eq!(last.message, "Clear Trauma Bay 2");
    assert_eq!(last.sender, "Dr. Ahmed Al-Mansoori");
    assert!(!last.urgent);
    assert!(app.chat_input.is_empty());
}

#[test]
fn message_ids_are_fresh() {
    let mut app = EmergencyApp::default();
    app.chat_input = "First".to_string();
    assert!(app.send_chat_message_now());
    app.chat_input = "Second".to_string();
    assert!(app.send_chat_message_now());
    let n = app.chat_messages.len();
    assert_ne!(app.chat_messages[n - 1].id, app.chat_messages[n - 2].id);
}
