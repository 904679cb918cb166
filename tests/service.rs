use pusz::actions::Effect;
use pusz::os_service::{
    clipboard_request,
    classify_message, hotkey_command, Key, Modifier, ReceivedMessage, ServiceAction, ServiceCommand,
    ServiceState, WM_CLIPBOARDUPDATE, WM_HOTKEY, WAKE_MESSAGE,
};

#[test]
fn modifier_codes() {
    assert_eq!(Modifier::NoModifier.v(), 0);
    assert_eq!(Modifier::Alt.v(), 1);
    assert_eq!(Modifier::Ctrl.v(), 2);
    assert_eq!(Modifier::Shift.v(), 4);
    assert_eq!(Modifier::Win.v(), 8);
}

#[test]
fn key_codes() {
    assert_eq!(Key::Return.v(), 0x0d);
    assert_eq!(Key::F1.v(), 0x70);
    assert_eq!(Key::Shift.v(), 0x10);
    assert_eq!(Key::A.v(), 'A' as u32);
    assert_eq!(Key::Z.v(), 'Z' as u32);
}

#[test]
fn messages_are_classified() {
    assert_eq!(classify_message(WM_HOTKEY, 13), ReceivedMessage::Hotkey { id: 13 });
    assert_eq!(classify_message(WM_CLIPBOARDUPDATE, 0), ReceivedMessage::ClipboardUpdate);
    assert_eq!(classify_message(WAKE_MESSAGE, 0), ReceivedMessage::Nothing);
}

#[test]
fn hotkeys_fire_only_when_registered() {
    let mut s = ServiceState::new();
    assert_eq!(s.on_message(ReceivedMessage::Hotkey { id: 13 }, None), ServiceAction::Nothing);
    let c = hotkey_command(13, Key::F1, Modifier::NoModifier);
    assert_eq!(s.on_command(c), ServiceAction::RegisterOsHotkey { id: 13, modifiers: 0, vk: 0x70 });
    assert_eq!(s.on_message(ReceivedMessage::Hotkey { id: 13 }, None), ServiceAction::InvokeHotkey(13));
    s.on_command(hotkey_command(13, Key::A, Modifier::Alt));
    assert_eq!(s.hotkeys, vec![13]);
}

#[test]
fn own_clipboard_write_is_not_echoed() {
    let mut s = ServiceState::new();
    s.on_command(ServiceCommand::AddClipboardListener { current: None });
    let a = s.on_command(ServiceCommand::SetClipboard { text: "chosen".to_string() });
    assert_eq!(a, ServiceAction::WriteClipboard("chosen".to_string()));
    assert_eq!(s.on_message(ReceivedMessage::ClipboardUpdate, Some("chosen")), ServiceAction::Nothing);
    assert_eq!(
        s.on_message(ReceivedMessage::ClipboardUpdate, Some("chosen")),
        ServiceAction::NotifyListeners("chosen".to_string())
    );
}

#[test]
fn most_recent_set_clipboard_wins() {
    let mut s = ServiceState::new();
    s.on_command(ServiceCommand::SetClipboard { text: "first".to_string() });
    let a = s.on_command(ServiceCommand::SetClipboard { text: "second".to_string() });
    assert_eq!(a, ServiceAction::WriteClipboard("second".to_string()));
    assert_eq!(s.last_set_clipboard, "second");
}

#[test]
fn first_listener_arms_watch_with_baseline() {
    let mut s = ServiceState::new();
    let a = s.on_command(ServiceCommand::AddClipboardListener { current: Some("held".to_string()) });
    assert_eq!(a, ServiceAction::ArmClipboardWatch);
    assert_eq!(s.last_set_clipboard, "held");
    let b = s.on_command(ServiceCommand::AddClipboardListener { current: Some("other".to_string()) });
    assert_eq!(b, ServiceAction::Nothing);
    assert_eq!(s.listeners, 2);
    assert_eq!(s.on_message(ReceivedMessage::ClipboardUpdate, Some("held")), ServiceAction::Nothing);
    assert_eq!(
        s.on_message(ReceivedMessage::ClipboardUpdate, Some("fresh")),
        ServiceAction::NotifyListeners("fresh".to_string())
    );
    assert_eq!(s.on_message(ReceivedMessage::ClipboardUpdate, None), ServiceAction::Nothing);
}

#[test]
fn listener_count_grows_to_its_limit() {
    let mut s = ServiceState::new();
    s.listeners = usize::MAX - 1;
    let a = s.on_command(ServiceCommand::AddClipboardListener { current: None });
    assert_eq!(a, ServiceAction::Nothing);
    assert_eq!(s.listeners, usize::MAX);
}

#[test]
fn only_copy_effects_request_the_clipboard() {
    match clipboard_request(Effect::SetClipboard("x".to_string())) {
        Some(ServiceCommand::SetClipboard { text }) => assert_eq!(text, "x"),
        other => panic!("expected a clipboard write, got {:?}", other),
    }
    assert!(clipboard_request(Effect::Nothing).is_none());
    assert!(clipboard_request(Effect::OpenBrowser("https://a.b".to_string())).is_none());
    assert!(clipboard_request(Effect::PluginRequest("p".to_string())).is_none());
}
