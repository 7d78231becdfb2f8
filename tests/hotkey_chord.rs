use rgb_control::hotkey::{listener_step, ChordDetector, Key, KeyEvent};
use rgb_control::message::GuiMessage;

#[test]
fn press_press_fires_once() {
    let mut d = ChordDetector::new();
    assert!(!d.observe(KeyEvent::KeyPress(Key::AltGr)));
    assert!(d.observe(KeyEvent::KeyPress(Key::MetaLeft)));
    assert!(d.modifier_pressed && d.meta_pressed);
}

#[test]
fn release_and_repress_rearms() {
    let mut d = ChordDetector::new();
    d.observe(KeyEvent::KeyPress(Key::MetaLeft));
    assert!(d.observe(KeyEvent::KeyPress(Key::AltGr)));
    assert!(!d.observe(KeyEvent::KeyRelease(Key::AltGr)));
    assert!(!d.modifier_pressed);
    assert!(!d.observe(KeyEvent::KeyPress(Key::Other)));
    assert!(d.observe(KeyEvent::KeyPress(Key::AltGr)));
}

#[test]
fn other_events_ignored() {
    let mut d = ChordDetector::new();
    assert!(!d.observe(KeyEvent::Other));
    assert!(!d.observe(KeyEvent::KeyRelease(Key::Other)));
    assert_eq!(d, ChordDetector::new());
    d.observe(KeyEvent::KeyPress(Key::AltGr));
    assert!(!d.observe(KeyEvent::KeyPress(Key::Other)));
    assert!(!d.observe(KeyEvent::KeyRelease(Key::MetaLeft)));
    assert!(d.modifier_pressed && !d.meta_pressed);
}

fn messages(events: &[KeyEvent]) -> Vec<GuiMessage> {
    let mut d = ChordDetector::new();
    events.iter().filter_map(|ev| listener_step(&mut d, *ev)).collect()
}

#[test]
fn listener_one_message_per_chord() {
    let press_alt = KeyEvent::KeyPress(Key::AltGr);
    let press_meta = KeyEvent::KeyPress(Key::MetaLeft);
    assert_eq!(messages(&[press_alt, press_meta]), vec![GuiMessage::CycleProfiles]);
    assert_eq!(messages(&[press_meta, press_alt]), vec![GuiMessage::CycleProfiles]);
    assert_eq!(
        messages(&[press_alt, press_meta, KeyEvent::KeyRelease(Key::MetaLeft), press_meta]),
        vec![GuiMessage::CycleProfiles, GuiMessage::CycleProfiles]
    );
    assert!(messages(&[press_alt, KeyEvent::KeyRelease(Key::AltGr), press_meta]).is_empty());
    assert!(messages(&[press_alt]).is_empty());
}
