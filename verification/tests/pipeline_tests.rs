use text_expander::buffer::InputBuffer;
use text_expander::coordinator::coordinate_expansion;
use text_expander::coordinator::ExpansionAction;
use text_expander::coordinator::ExpansionRequest;
use text_expander::injector::expand_replace_current_tag;
use text_expander::keys::char_for_key;
use text_expander::keys::is_word_char;
use text_expander::keys::Key;
use text_expander::monitor::handle_event;
use text_expander::monitor::KeyEvent;
use text_expander::popup::PopupManager;

fn type_keys(buf: &mut InputBuffer, keys: &[Key]) -> Option<ExpansionRequest> {
    let mut last = None;
    for k in keys {
        last = handle_event(buf, KeyEvent::Press(*k));
    }
    last
}

fn hello_trigger_keys() -> Vec<Key> {
    vec![
        Key::Slash,
        Key::KeyH,
        Key::KeyE,
        Key::KeyL,
        Key::KeyL,
        Key::KeyO,
        Key::Space,
    ]
}

#[test]
fn single_match_expands_and_clears() {
    let mut buf = InputBuffer::new();
    let mut popup = PopupManager::new();
    let req = type_keys(&mut buf, &hello_trigger_keys()).expect("trigger detected");
    assert_eq!(req.trigger, "/hello ");
    assert_eq!(req.tag, "hello");
    let lookup = Some(vec![String::from("Hola!")]);
    let action = coordinate_expansion(&mut buf, &mut popup, &req, lookup);
    match action {
        ExpansionAction::Inject(plan) => {
            assert_eq!(plan.backspace_count, 7);
            assert_eq!(plan.insert_text, "Hola!");
        }
        _ => panic!("expected an injection"),
    }
    assert_eq!(buf.len(), 0);
    assert!(!popup.is_visible());
}

#[test]
fn multi_match_shows_popup_and_keeps_buffer() {
    let mut buf = InputBuffer::new();
    let mut popup = PopupManager::new();
    let req = type_keys(&mut buf, &hello_trigger_keys()).expect("trigger detected");
    let lookup = Some(vec![
        String::from("Hola!"),
        String::from("Buen dia!"),
        String::from("Como estas?"),
    ]);
    let action = coordinate_expansion(&mut buf, &mut popup, &req, lookup);
    match action {
        ExpansionAction::ShowPopup { query } => assert_eq!(query, "hello"),
        _ => panic!("expected a popup request"),
    }
    assert_eq!(buf.contents(), "/hello ");
    assert!(popup.is_visible());
    assert_eq!(popup.query(), "hello");
}

#[test]
fn zero_matches_changes_nothing() {
    let mut buf = InputBuffer::new();
    let mut popup = PopupManager::new();
    let keys = [
        Key::Slash,
        Key::KeyU,
        Key::KeyN,
        Key::KeyK,
        Key::KeyN,
        Key::KeyO,
        Key::KeyW,
        Key::KeyN,
        Key::Space,
    ];
    let req = type_keys(&mut buf, &keys).expect("trigger detected");
    assert_eq!(req.tag, "unknown");
    let action = coordinate_expansion(&mut buf, &mut popup, &req, Some(Vec::new()));
    assert!(matches!(action, ExpansionAction::NoMatch));
    assert_eq!(buf.contents(), "/unknown ");
    assert!(!popup.is_visible());
}

#[test]
fn failed_lookup_counts_as_zero_matches() {
    let mut buf = InputBuffer::new();
    let mut popup = PopupManager::new();
    let req = type_keys(&mut buf, &hello_trigger_keys()).expect("trigger detected");
    let action = coordinate_expansion(&mut buf, &mut popup, &req, None);
    assert!(matches!(action, ExpansionAction::NoMatch));
    assert_eq!(buf.contents(), "/hello ");
    assert!(!popup.is_visible());
}

#[test]
fn confirmed_expansion_ignores_earlier_typing() {
    let mut buf = InputBuffer::new();
    let mut popup = PopupManager::new();
    buf.push_str("earlier words /hello ");
    popup.show_with_query("hello");
    let plan = expand_replace_current_tag(&mut buf, &mut popup, "Hola!");
    assert_eq!(plan.backspace_count, 7);
    assert_eq!(plan.insert_text, "Hola!");
    assert_eq!(buf.len(), 0);
    assert!(!popup.is_visible());
}

#[test]
fn replace_with_empty_buffer_deletes_nothing() {
    let mut buf = InputBuffer::new();
    let mut popup = PopupManager::new();
    let plan = expand_replace_current_tag(&mut buf, &mut popup, "Hola!");
    assert_eq!(plan.backspace_count, 0);
    assert_eq!(plan.insert_text, "Hola!");
    assert_eq!(buf.len(), 0);
}

#[test]
fn hide_when_already_hidden_is_noop() {
    let mut popup = PopupManager::new();
    assert!(!popup.is_visible());
    popup.hide_popup();
    assert!(!popup.is_visible());
    popup.show_with_query("hello");
    assert!(popup.is_visible());
    popup.hide_popup();
    assert!(!popup.is_visible());
    popup.hide_popup();
    assert!(!popup.is_visible());
    assert_eq!(popup.query(), "hello");
}

#[test]
fn backspace_release_pops_last_character() {
    let mut buf = InputBuffer::new();
    buf.push_str("ab");
    let req = handle_event(&mut buf, KeyEvent::Release(Key::Backspace));
    assert!(req.is_none());
    assert_eq!(buf.contents(), "a");
}

#[test]
fn backspace_release_on_empty_buffer_is_noop() {
    let mut buf = InputBuffer::new();
    let req = handle_event(&mut buf, KeyEvent::Release(Key::Backspace));
    assert!(req.is_none());
    assert_eq!(buf.len(), 0);
}

#[test]
fn unmapped_press_leaves_buffer_alone() {
    let mut buf = InputBuffer::new();
    buf.push_str("abc");
    let req = handle_event(&mut buf, KeyEvent::Press(Key::Unmapped));
    assert!(req.is_none());
    assert_eq!(buf.contents(), "abc");
}

#[test]
fn ordinary_release_leaves_buffer_alone() {
    let mut buf = InputBuffer::new();
    buf.push_str("abc");
    let req = handle_event(&mut buf, KeyEvent::Release(Key::KeyA));
    assert!(req.is_none());
    assert_eq!(buf.contents(), "abc");
}

#[test]
fn key_mapping_is_canonical() {
    assert_eq!(char_for_key(Key::KeyA), Some('a'));
    assert_eq!(char_for_key(Key::KeyZ), Some('z'));
    assert_eq!(char_for_key(Key::Num0), Some('0'));
    assert_eq!(char_for_key(Key::Num9), Some('9'));
    assert_eq!(char_for_key(Key::Slash), Some('/'));
    assert_eq!(char_for_key(Key::Space), Some(' '));
    assert_eq!(char_for_key(Key::Backspace), None);
    assert_eq!(char_for_key(Key::Unmapped), None);
    assert!(is_word_char(Key::KeyQ));
    assert!(is_word_char(Key::Space));
    assert!(!is_word_char(Key::Backspace));
    assert!(!is_word_char(Key::Unmapped));
}

#[test]
fn trigger_only_fires_on_completing_space() {
    let mut buf = InputBuffer::new();
    let req = handle_event(&mut buf, KeyEvent::Press(Key::Slash));
    assert!(req.is_none());
    let req = handle_event(&mut buf, KeyEvent::Press(Key::KeyA));
    assert!(req.is_none());
    let req = handle_event(&mut buf, KeyEvent::Press(Key::KeyB));
    assert!(req.is_none());
    let req = handle_event(&mut buf, KeyEvent::Press(Key::Space));
    let req = req.expect("completed trigger detected");
    assert_eq!(req.trigger, "/ab ");
    assert_eq!(req.tag, "ab");
}
