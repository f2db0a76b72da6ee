use whispering::hotkey::{Activation, Hotkeys, KeyEvent, RecorderCommand};

const CTRL: u64 = 1;
const SPACE: u64 = 2;
const ALT: u64 = 3;

#[test]
fn push_to_talk_records_while_the_shortcut_is_held() {
    let mut hotkeys = Hotkeys::new(Activation::PushToTalk, &[CTRL, SPACE]);
    assert!(!hotkeys.is_recording());
    assert!(!hotkeys.all_pressed());
    assert_eq!(hotkeys.handle_event(KeyEvent::Press(CTRL)), None);
    assert_eq!(
        hotkeys.handle_event(KeyEvent::Press(SPACE)),
        Some(RecorderCommand::Start)
    );
    assert!(hotkeys.is_recording());
    assert!(hotkeys.all_pressed());
    // Key repeat and other keys change nothing while recording.
    assert_eq!(hotkeys.handle_event(KeyEvent::Press(SPACE)), None);
    assert_eq!(hotkeys.handle_event(KeyEvent::Press(ALT)), None);
    assert_eq!(hotkeys.handle_event(KeyEvent::Release(ALT)), None);
    assert_eq!(hotkeys.handle_event(KeyEvent::Other), None);
    assert_eq!(
        hotkeys.handle_event(KeyEvent::Release(SPACE)),
        Some(RecorderCommand::Stop)
    );
    assert!(!hotkeys.is_recording());
    assert_eq!(hotkeys.handle_event(KeyEvent::Release(CTRL)), None);
    assert_eq!(hotkeys.handle_event(KeyEvent::Release(CTRL)), None);
}

#[test]
fn toggle_switches_on_every_press_with_the_shortcut_held() {
    let mut hotkeys = Hotkeys::new(Activation::ToggleVad, &[CTRL, SPACE, CTRL]);
    assert_eq!(hotkeys.handle_event(KeyEvent::Press(SPACE)), None);
    assert_eq!(
        hotkeys.handle_event(KeyEvent::Press(CTRL)),
        Some(RecorderCommand::Start)
    );
    assert!(hotkeys.is_recording());
    assert_eq!(hotkeys.handle_event(KeyEvent::Release(CTRL)), None);
    assert_eq!(hotkeys.handle_event(KeyEvent::Release(SPACE)), None);
    assert!(hotkeys.is_recording());
    assert_eq!(hotkeys.handle_event(KeyEvent::Press(ALT)), None);
    assert_eq!(hotkeys.handle_event(KeyEvent::Press(CTRL)), None);
    assert_eq!(
        hotkeys.handle_event(KeyEvent::Press(SPACE)),
        Some(RecorderCommand::Stop)
    );
    assert!(!hotkeys.is_recording());
    // With the shortcut still held, any further press switches again.
    assert_eq!(
        hotkeys.handle_event(KeyEvent::Press(ALT)),
        Some(RecorderCommand::Start)
    );
    assert_eq!(
        hotkeys.handle_event(KeyEvent::Press(SPACE)),
        Some(RecorderCommand::Stop)
    );
}

#[test]
fn an_empty_shortcut_is_held_at_every_press() {
    let mut hotkeys = Hotkeys::new(Activation::PushToTalk, &[]);
    assert!(hotkeys.all_pressed());
    assert_eq!(
        hotkeys.handle_event(KeyEvent::Press(ALT)),
        Some(RecorderCommand::Start)
    );
    assert_eq!(hotkeys.handle_event(KeyEvent::Release(ALT)), None);
    assert!(hotkeys.is_recording());
}
