use nova_egui::input::Key;
use nova_egui::modifiers::EguiModifiers;
use nova_egui::modifiers::Modifiers;

fn no_modifiers() -> EguiModifiers {
    EguiModifiers { alt: false, ctrl: false, shift: false, mac_cmd: false, command: false }
}

#[test]
fn default_flags_are_all_up() {
    let m = Modifiers::default();
    assert_eq!(m.to_egui(false), no_modifiers());
    assert_eq!(m.to_egui(true), no_modifiers());
}

#[test]
fn either_shift_key_sets_shift() {
    let mut m = Modifiers::default();
    m.key_down(Key::LeftShift);
    assert!(m.to_egui(false).shift);
    let mut m = Modifiers::default();
    m.key_down(Key::RightShift);
    assert!(m.to_egui(false).shift);
}

#[test]
fn shift_stays_down_until_both_keys_are_up() {
    let mut m = Modifiers::default();
    m.key_down(Key::LeftShift);
    m.key_down(Key::RightShift);
    m.key_up(Key::LeftShift);
    assert!(m.to_egui(false).shift);
    m.key_up(Key::RightShift);
    assert!(!m.to_egui(false).shift);
}

#[test]
fn command_follows_ctrl_off_mac() {
    let mut m = Modifiers::default();
    m.key_down(Key::LeftCtrl);
    let e = m.to_egui(false);
    assert!(e.ctrl);
    assert!(e.command);
    assert!(!e.mac_cmd);
}

#[test]
fn command_follows_command_keys_on_mac() {
    let mut m = Modifiers::default();
    m.key_down(Key::RightCommand);
    let on_mac = m.to_egui(true);
    assert!(on_mac.mac_cmd);
    assert!(on_mac.command);
    assert!(!on_mac.ctrl);
    let off_mac = m.to_egui(false);
    assert!(off_mac.mac_cmd);
    assert!(!off_mac.command);
}

#[test]
fn alt_keys_set_alt() {
    let mut m = Modifiers::default();
    m.key_down(Key::LeftAlt);
    assert!(m.to_egui(false).alt);
    m.key_up(Key::LeftAlt);
    m.key_down(Key::RightAlt);
    assert!(m.to_egui(false).alt);
}

#[test]
fn non_modifier_keys_leave_the_flags_alone() {
    let mut m = Modifiers::default();
    m.key_down(Key::A);
    m.key_down(Key::CapsLock);
    m.key_up(Key::Space);
    assert_eq!(m.to_egui(false), no_modifiers());
}

#[test]
fn repeated_presses_still_end_with_one_release() {
    let mut m = Modifiers::default();
    m.key_down(Key::LeftAlt);
    m.key_down(Key::LeftAlt);
    m.key_up(Key::LeftAlt);
    assert!(!m.to_egui(false).alt);
}

#[test]
fn releasing_a_key_that_was_never_pressed_is_harmless() {
    let mut m = Modifiers::default();
    m.key_up(Key::LeftCommand);
    assert_eq!(m.to_egui(true), no_modifiers());
}
