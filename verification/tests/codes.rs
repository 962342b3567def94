use yuki::sdk::defs::c_usercmd::{
    ButtonCode, CmdButtons, MouseCodeState, ALL_CMD_BUTTONS, IN_ATTACK, IN_ATTACK_3, IN_DUCK,
    IN_JUMP,
};
use yuki::sdk::defs::cliententity::ClientEntityVTableIndicies;
use yuki::sdk::defs::clientstate::INetChannelVTableIndicies;
use yuki::sdk::defs::recv_props::SendPropType;
use yuki::sdk::interfaces::appsystem::AppSystemVTableIndicies;
use yuki::sdk::interfaces::clientmode::ClientModeVTableIndicies;
use yuki::sdk::interfaces::engine::EngineVTableIndicies;
use yuki::sdk::interfaces::entitylist::EntityListVTableIndicies;
use yuki::sdk::interfaces::gameevent::GameEventVTableIndicies;
use yuki::sdk::interfaces::input::InputVTableIndicies;
use yuki::sdk::interfaces::localize::LocalizeVTableIndicies;
use yuki::sdk::interfaces::panel::PanelVTableIndicies;
use yuki::sdk::interfaces::v_debug_overlay::VDebugOverlayVTableIndicies;

#[test]
fn button_numbers() {
    assert_eq!(ButtonCode::KeyNone.to_i32(), 0);
    assert_eq!(ButtonCode::Key0.to_i32(), 1);
    assert_eq!(ButtonCode::KeyA.to_i32(), 11);
    assert_eq!(ButtonCode::KeyScrollLockToggle.to_i32(), 106);
    assert_eq!(ButtonCode::MouseLeft.to_i32(), 107);
    assert_eq!(ButtonCode::MouseWheelDown.to_i32(), 113);
}

#[test]
fn button_ranges() {
    assert!(ButtonCode::first_key() == ButtonCode::KeyNone);
    assert!(ButtonCode::last_key() == ButtonCode::KeyScrollLockToggle);
    assert!(ButtonCode::first_mouse() == ButtonCode::MouseLeft);
    assert!(ButtonCode::last_mouse() == ButtonCode::MouseWheelDown);
    assert_eq!(ButtonCode::key_count(), 107);
    assert_eq!(ButtonCode::mouse_count(), 7);
}

#[test]
fn button_from_number() {
    assert!(ButtonCode::from_i32(0) == Some(ButtonCode::KeyNone));
    assert!(ButtonCode::from_i32(37) == Some(ButtonCode::KeyPad0));
    assert!(ButtonCode::from_i32(113) == Some(ButtonCode::MouseWheelDown));
    assert!(ButtonCode::from_i32(-1).is_none());
    assert!(ButtonCode::from_i32(115).is_none());
    assert!(ButtonCode::from_i32(1000).is_none());
}

#[test]
fn button_round_trip_all() {
    for i in 0..114 {
        let b = ButtonCode::from_i32(i).unwrap();
        assert_eq!(b.to_i32(), i);
    }
}

#[test]
fn mouse_code_states_differ() {
    assert!(MouseCodeState::ButtonPressed != MouseCodeState::ButtonReleased);
    assert!(MouseCodeState::ButtonDoubleClicked == MouseCodeState::ButtonDoubleClicked);
}

#[test]
fn cmd_buttons_insert_remove() {
    let jump = CmdButtons::from_bits(IN_JUMP).unwrap();
    let duck = CmdButtons::from_bits(IN_DUCK).unwrap();
    let mut b = CmdButtons::empty();
    assert!(b.is_empty());
    b.insert(jump);
    assert!(b.contains(jump));
    assert!(!b.contains(duck));
    assert_eq!(b.bits(), 2);
    b.set(duck, true);
    assert_eq!(b.bits(), 6);
    b.remove(jump);
    assert!(!b.intersects(jump));
    assert_eq!(b.bits(), 4);
    b.set(duck, false);
    assert!(b.is_empty());
}

#[test]
fn cmd_buttons_toggle_twice() {
    let mut b = CmdButtons::from_bits(IN_ATTACK | IN_DUCK).unwrap();
    let t = CmdButtons::from_bits(IN_DUCK | IN_JUMP).unwrap();
    b.toggle(t);
    assert_eq!(b.bits(), IN_ATTACK | IN_JUMP);
    b.toggle(t);
    assert_eq!(b.bits(), IN_ATTACK | IN_DUCK);
}

#[test]
fn cmd_buttons_all_and_bits() {
    assert_eq!(ALL_CMD_BUTTONS, 0x3ff_ffff);
    assert!(CmdButtons::all().is_all());
    assert!(!CmdButtons::empty().is_all());
    assert_eq!(IN_ATTACK_3, 1 << 25);
    assert!(CmdButtons::from_bits(1 << 26).is_none());
    assert!(CmdButtons::from_bits(-1).is_none());
    assert_eq!(CmdButtons::from_bits_truncate(-1).bits(), ALL_CMD_BUTTONS);
    assert_eq!(CmdButtons::from_bits_truncate(1 << 26 | IN_JUMP).bits(), IN_JUMP);
}

#[test]
fn cmd_buttons_set_algebra() {
    let a = CmdButtons::from_bits(IN_ATTACK | IN_JUMP).unwrap();
    let b = CmdButtons::from_bits(IN_JUMP | IN_DUCK).unwrap();
    assert_eq!(a.union(b).bits(), IN_ATTACK | IN_JUMP | IN_DUCK);
    assert_eq!(a.intersection(b).bits(), IN_JUMP);
    assert_eq!(a.difference(b).bits(), IN_ATTACK);
    assert_eq!(a.symmetric_difference(b).bits(), IN_ATTACK | IN_DUCK);
    assert_eq!(a.complement().bits(), ALL_CMD_BUTTONS & !(IN_ATTACK | IN_JUMP));
    assert_eq!(a.complement().complement().bits(), a.bits());
}

#[test]
fn vtable_slots() {
    assert_eq!(AppSystemVTableIndicies::Connect.index(), 0);
    assert_eq!(AppSystemVTableIndicies::UnkFunc.index(), 8);
    assert_eq!(ClientModeVTableIndicies::ShouldDrawEntity.index(), 14);
    assert_eq!(EngineVTableIndicies::ScreenSize.index(), 5);
    assert_eq!(EngineVTableIndicies::IsInGame.index(), 26);
    assert_eq!(EngineVTableIndicies::UnrestrictedClientCommand.index(), 114);
    assert_eq!(EntityListVTableIndicies::GetClientEntityHandle.index(), 4);
    assert_eq!(GameEventVTableIndicies::GetName.index(), 1);
    assert_eq!(GameEventVTableIndicies::SetWString.index(), 16);
    assert_eq!(InputVTableIndicies::GetUserCmd.index(), 8);
    assert_eq!(LocalizeVTableIndicies::Find.index(), 11);
    assert_eq!(PanelVTableIndicies::GetName.index(), 36);
    assert_eq!(VDebugOverlayVTableIndicies::WorldToScreen.index(), 13);
    assert_eq!(ClientEntityVTableIndicies::GetEntityId.index(), 10);
    assert_eq!(INetChannelVTableIndicies::Transmit.index(), 49);
}

#[test]
fn send_prop_numbers() {
    assert_eq!(SendPropType::Int.to_i32(), 0);
    assert_eq!(SendPropType::VecXY.to_i32(), 3);
    assert_eq!(SendPropType::Int64.to_i32(), 7);
}
