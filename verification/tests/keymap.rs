use nova_egui::input::Key;
use nova_egui::input::MouseButton;
use nova_egui::keymap::EguiKey;
use nova_egui::keymap::PointerButton;

#[test]
fn key_map_letters() {
    assert_eq!(Key::A.to_egui_key(), Some(EguiKey::A));
    assert_eq!(Key::M.to_egui_key(), Some(EguiKey::M));
    assert_eq!(Key::Z.to_egui_key(), Some(EguiKey::Z));
}

#[test]
fn key_map_editing_keys() {
    assert_eq!(Key::Space.to_egui_key(), Some(EguiKey::Space));
    assert_eq!(Key::Backspace.to_egui_key(), Some(EguiKey::Backspace));
    assert_eq!(Key::Enter.to_egui_key(), Some(EguiKey::Enter));
    assert_eq!(Key::Tab.to_egui_key(), Some(EguiKey::Tab));
    assert_eq!(Key::Escape.to_egui_key(), Some(EguiKey::Escape));
    assert_eq!(Key::Delete.to_egui_key(), Some(EguiKey::Delete));
}

#[test]
fn key_map_arrows() {
    assert_eq!(Key::Up.to_egui_key(), Some(EguiKey::ArrowUp));
    assert_eq!(Key::Down.to_egui_key(), Some(EguiKey::ArrowDown));
    assert_eq!(Key::Left.to_egui_key(), Some(EguiKey::ArrowLeft));
    assert_eq!(Key::Right.to_egui_key(), Some(EguiKey::ArrowRight));
}

#[test]
fn key_map_grave_becomes_backtick() {
    assert_eq!(Key::Grave.to_egui_key(), Some(EguiKey::Backtick));
}

#[test]
fn key_map_digits_and_punctuation() {
    assert_eq!(Key::Num0.to_egui_key(), Some(EguiKey::Num0));
    assert_eq!(Key::Num5.to_egui_key(), Some(EguiKey::Num5));
    assert_eq!(Key::Num9.to_egui_key(), Some(EguiKey::Num9));
    assert_eq!(Key::Minus.to_egui_key(), Some(EguiKey::Minus));
    assert_eq!(Key::Equals.to_egui_key(), Some(EguiKey::Equals));
}

#[test]
fn key_map_function_keys() {
    assert_eq!(Key::F1.to_egui_key(), Some(EguiKey::F1));
    assert_eq!(Key::F6.to_egui_key(), Some(EguiKey::F6));
    assert_eq!(Key::F12.to_egui_key(), Some(EguiKey::F12));
}

#[test]
fn key_map_drops_caps_lock_and_modifier_keys() {
    assert_eq!(Key::CapsLock.to_egui_key(), None);
    assert_eq!(Key::LeftShift.to_egui_key(), None);
    assert_eq!(Key::RightShift.to_egui_key(), None);
    assert_eq!(Key::LeftCtrl.to_egui_key(), None);
    assert_eq!(Key::RightCtrl.to_egui_key(), None);
    assert_eq!(Key::LeftAlt.to_egui_key(), None);
    assert_eq!(Key::RightAlt.to_egui_key(), None);
    assert_eq!(Key::LeftCommand.to_egui_key(), None);
    assert_eq!(Key::RightCommand.to_egui_key(), None);
}

#[test]
fn button_map_covers_every_engine_button() {
    assert_eq!(MouseButton::Left.to_egui_button(), Some(PointerButton::Primary));
    assert_eq!(MouseButton::Middle.to_egui_button(), Some(PointerButton::Middle));
    assert_eq!(MouseButton::Right.to_egui_button(), Some(PointerButton::Secondary));
    assert_eq!(MouseButton::X1.to_egui_button(), Some(PointerButton::Extra1));
    assert_eq!(MouseButton::X2.to_egui_button(), Some(PointerButton::Extra2));
}
