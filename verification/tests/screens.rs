use ttp_core::inspect::HexInputError;
use ttp_core::screens::{BinaryToCommApp, CommToBinaryApp, Effect, Key, Status};
use ttp_core::structure::{render_array, render_container, LineLabel, Tone, TreeLine};
use ttp_core::{CommunicationType, CommunicationValue, DataTypes, DataValue};

fn press(app: &mut CommToBinaryApp, keys: &[Key]) {
    for k in keys {
        match app.handle_key(*k, false) {
            Effect::Quit => panic!("left the screen"),
            Effect::Regenerate => app.generate_binary(4242),
            Effect::Stay => {}
        }
    }
}

fn text(cs: &Vec<char>) -> String {
    cs.iter().collect()
}

#[test]
fn builder_starts_on_a_ping_form() {
    let app = CommToBinaryApp::new();
    assert_eq!(app.comm_type(), CommunicationType::ping);
    assert_eq!(text(app.sender()), "0");
    assert_eq!(text(app.receiver()), "0");
    assert_eq!(text(app.id()), "0");
    assert_eq!(app.selected_field(), 0);
    assert!(app.generated_bytes().is_none());
    assert_eq!(app.comm_selected(), Some(0));
}

#[test]
fn builder_fields_cycle_round_six() {
    let mut app = CommToBinaryApp::new();
    press(&mut app, &[Key::Up]);
    assert_eq!(app.selected_field(), 5);
    press(&mut app, &[Key::Tab, Key::Down]);
    assert_eq!(app.selected_field(), 1);
}

#[test]
fn builder_quits_on_q_esc_and_ctrl_c() {
    let mut app = CommToBinaryApp::new();
    assert_eq!(app.handle_key(Key::Char('q'), false), Effect::Quit);
    assert_eq!(app.handle_key(Key::Esc, false), Effect::Quit);
    assert_eq!(app.handle_key(Key::Char('c'), true), Effect::Quit);
    assert_eq!(app.handle_key(Key::Char('c'), false), Effect::Stay);
}

#[test]
fn builder_picks_a_type_from_the_list() {
    let mut app = CommToBinaryApp::new();
    press(&mut app, &[Key::Enter]);
    assert!(app.show_comm_type_list());
    press(&mut app, &[Key::Down, Key::Down, Key::Up, Key::Enter]);
    assert!(!app.show_comm_type_list());
    assert_eq!(app.comm_type(), CommunicationType::from_number(1));
    let bytes = app.generated_bytes().expect("built").clone();
    assert_eq!(bytes[4], 1);
}

#[test]
fn builder_types_into_the_sender_and_builds() {
    let mut app = CommToBinaryApp::new();
    press(&mut app, &[Key::Tab, Key::Enter]);
    assert!(app.edit_mode());
    press(&mut app, &[Key::Backspace, Key::Char('4'), Key::Char('2'), Key::Enter]);
    assert!(!app.edit_mode());
    assert_eq!(text(app.sender()), "42");
    let bytes = app.generated_bytes().expect("built").clone();
    let cv = CommunicationValue::from_bytes(&bytes).expect("a message");
    assert_eq!(cv.get_sender(), 42);
    assert_eq!(cv.get_type(), CommunicationType::ping);
}

#[test]
fn builder_adds_and_deletes_entries() {
    let mut app = CommToBinaryApp::new();
    press(&mut app, &[Key::Tab, Key::Tab, Key::Tab, Key::Tab]);
    assert_eq!(app.selected_field(), 4);
    press(&mut app, &[Key::Char('a')]);
    assert_eq!(app.status_message(), Some(Status::KeyMissing));
    press(&mut app, &[Key::Enter]);
    assert!(app.show_data_type_list());
    for _ in 0..11 {
        press(&mut app, &[Key::Down]);
    }
    press(&mut app, &[Key::Enter]);
    assert_eq!(app.current_key(), Some(DataTypes::user_id));
    assert!(app.edit_mode());
    press(&mut app, &[Key::Char('x'), Key::Esc, Key::Char('a')]);
    assert_eq!(app.status_message(), Some(Status::InvalidValue));
    press(&mut app, &[Key::Enter, Key::Backspace, Key::Char('9'), Key::Esc, Key::Char('a')]);
    assert_eq!(app.status_message(), Some(Status::EntryAdded));
    assert_eq!(app.data_entries(), &vec![(DataTypes::user_id, DataValue::Number(9))]);
    assert!(app.current_key().is_none());
    let cv = CommunicationValue::from_bytes(app.generated_bytes().expect("built")).expect("message");
    assert_eq!(cv.get_data(DataTypes::user_id), &DataValue::Number(9));
    press(&mut app, &[Key::Char('d')]);
    assert_eq!(app.status_message(), Some(Status::EntryDeleted));
    assert!(app.data_entries().is_empty());
    press(&mut app, &[Key::Char('h')]);
    assert!(app.show_help());
    assert_eq!(app.status_message(), None);
}

#[test]
fn status_texts_are_exact() {
    assert_eq!(Status::EntryAdded.text(), "Entry added!");
    assert_eq!(Status::EntryDeleted.text(), "Last entry deleted");
    assert_eq!(Status::InvalidValue.text(), "Invalid value for this DataKind");
    assert_eq!(Status::ValueMissing.text(), "Type a value first");
    assert_eq!(Status::KeyMissing.text(), "Select a key first (press Enter)");
}

#[test]
fn viewer_reads_typed_hex() {
    let mut app = BinaryToCommApp::new();
    assert!(app.binary_error().is_none());
    assert!(app.parsed_value().is_none());
    for c in "[00,00,00,04,30,00,00,0".chars() {
        assert!(!app.handle_key(Key::Char(c), false));
    }
    assert_eq!(app.binary_error(), Some(HexInputError::IncompleteByte));
    app.handle_key(Key::Char('z'), false);
    assert_eq!(app.binary_input().len(), 23);
    app.handle_key(Key::Char('0'), false);
    app.handle_key(Key::Char(']'), false);
    let cv = app.parsed_value().expect("a message");
    assert_eq!(cv.get_type(), CommunicationType::ping);
    assert!(app.binary_error().is_none());
    app.handle_key(Key::Backspace, false);
    app.handle_key(Key::Backspace, false);
    assert_eq!(app.binary_error(), Some(HexInputError::IncompleteByte));
}

#[test]
fn viewer_tabs_scrolls_and_quits() {
    let mut app = BinaryToCommApp::new();
    app.handle_key(Key::Tab, false);
    assert_eq!(app.selected_tab(), 1);
    app.handle_key(Key::Tab, false);
    assert_eq!(app.selected_tab(), 0);
    app.handle_key(Key::Up, false);
    assert_eq!(app.scroll_offset(), 0);
    app.handle_key(Key::Down, false);
    app.handle_key(Key::Down, false);
    app.handle_key(Key::Up, false);
    assert_eq!(app.scroll_offset(), 1);
    app.handle_key(Key::Char('h'), false);
    assert!(app.show_help());
    assert!(app.handle_key(Key::Char('q'), false));
    assert!(app.handle_key(Key::Esc, false));
    assert!(app.handle_key(Key::Char('c'), true));
}

fn shown(lines: &[TreeLine]) -> Vec<(usize, bool, LineLabel, String, Tone)> {
    lines
        .iter()
        .map(|l| (l.depth, l.last, l.label, l.text.clone(), l.tone))
        .collect()
}

#[test]
fn tree_of_a_container_is_exact() {
    let data = vec![
        (DataTypes::username, DataValue::Str("a".to_string())),
        (DataTypes::user_id, DataValue::Number(-1)),
        (
            DataTypes::user_ids,
            DataValue::Array(vec![DataValue::BoolTrue, DataValue::Container(vec![])]),
        ),
        (DataTypes::username, DataValue::Str("b".to_string())),
    ];
    let lines = render_container(&data, 0);
    assert_eq!(
        shown(&lines),
        vec![
            (0, false, LineLabel::Key(DataTypes::user_id), "-1".to_string(), Tone::Green),
            (0, false, LineLabel::Key(DataTypes::user_ids), "[2 items]".to_string(), Tone::Cyan),
            (1, false, LineLabel::Index(0), "BoolTrue".to_string(), Tone::White),
            (1, true, LineLabel::Index(1), "{...}".to_string(), Tone::Cyan),
            (2, true, LineLabel::Nothing, "(empty)".to_string(), Tone::DarkGray),
            (0, true, LineLabel::Key(DataTypes::username), "\"b\"".to_string(), Tone::Green),
        ]
    );
}

#[test]
fn tree_shows_booleans_and_null_by_place() {
    let data = vec![
        (DataTypes::enabled, DataValue::Bool(false)),
        (DataTypes::message, DataValue::Null),
    ];
    assert_eq!(
        shown(&render_container(&data, 1)),
        vec![
            (1, false, LineLabel::Key(DataTypes::enabled), "false".to_string(), Tone::Red),
            (1, true, LineLabel::Key(DataTypes::message), "null".to_string(), Tone::DarkGray),
        ]
    );
    let items = vec![DataValue::Bool(true), DataValue::Null];
    assert_eq!(
        shown(&render_array(&items, 0)),
        vec![
            (0, false, LineLabel::Index(0), "Bool(true)".to_string(), Tone::White),
            (0, true, LineLabel::Index(1), "Null".to_string(), Tone::White),
        ]
    );
    assert!(render_array(&vec![], 0).is_empty());
}

#[test]
fn builder_omits_a_zero_id() {
    let mut app = CommToBinaryApp::new();
    app.generate_binary(12345);
    assert_eq!(app.generated_bytes(), Some(&vec![0, 0, 0, 4, 0x30, 0, 0, 0]));
}

#[test]
fn builder_uses_the_fallback_id_for_unreadable_text() {
    let mut app = CommToBinaryApp::new();
    press(&mut app, &[Key::Tab, Key::Tab, Key::Tab, Key::Enter, Key::Char('x'), Key::Esc]);
    assert_eq!(text(app.id()), "0x");
    app.generate_binary(7);
    let cv = CommunicationValue::from_bytes(app.generated_bytes().expect("built")).expect("message");
    assert_eq!(cv.get_id(), 7);
}

#[test]
fn viewer_tree_shows_decoded_booleans_as_markers() {
    let mut app = BinaryToCommApp::new();
    let cv = CommunicationValue::new_with_id(CommunicationType::ping, 0).add_data(
        DataTypes::user_ids,
        DataValue::Array(vec![DataValue::Bool(true)]),
    );
    for b in cv.to_bytes() {
        for c in format!("{:02x}", b).chars() {
            app.handle_key(Key::Char(c), false);
        }
    }
    let parsed = app.parsed_value().expect("a message");
    let lines = render_container(parsed.get_data_container(), 0);
    assert_eq!(lines[1].text, "BoolTrue");
}
