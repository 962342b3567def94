use yuki::dll::{dll_action, DllAction, DLL_PROCESS_ATTACH, DLL_PROCESS_DETACH};
use yuki::error::{Error, InterfaceErrorKind, OptionExt, ProcessErrorKind, StdErrorKind};
use yuki::process::{
    check_vfunc_index, count_methods, export_or_error, interface_or_error, module_or_error,
    nul_terminated, HookTable,
};
use yuki::scan::{e_lfanew, pattern_scan, size_of_image};
use yuki::sdk::math::vector3d::clip_number;

#[test]
fn failure_of_option() {
    assert!(matches!(Some(3).failure(), Ok(3)));
    let r: Result<u8, Error> = None.failure();
    assert!(matches!(r, Err(Error::Standard(StdErrorKind::NoneValue))));
}

#[test]
fn error_conversions() {
    let e: Error = InterfaceErrorKind::InvalidVFuncIndex(-2).into();
    assert!(matches!(e, Error::Interface(InterfaceErrorKind::InvalidVFuncIndex(-2))));
    let e: Error = ProcessErrorKind::MemoryRead(16).into();
    assert!(matches!(e, Error::Process(ProcessErrorKind::MemoryRead(16))));
    let e: Error = StdErrorKind::NoneValue.into();
    assert!(matches!(e, Error::Standard(StdErrorKind::NoneValue)));
}

#[test]
fn clip_wraps_round() {
    assert_eq!(clip_number(5, 0, 3), 0);
    assert_eq!(clip_number(-1, 0, 3), 3);
    assert_eq!(clip_number(2, 0, 3), 2);
    assert_eq!(clip_number(0, 0, 3), 0);
    assert_eq!(clip_number(3, 0, 3), 3);
    assert_eq!(clip_number(100.0f32, -89.0, 89.0), -89.0);
    assert_eq!(clip_number(-100.0f32, -89.0, 89.0), 89.0);
    assert_eq!(clip_number(45.5f32, -89.0, 89.0), 45.5);
}

#[test]
fn scan_finds_first_match() {
    let image = [0xA1u8, 0x10, 0x8B, 0x80, 0xA1, 0x20, 0x8B, 0x80, 0xC3, 0x00];
    let pattern = [Some(0xA1u8), None, Some(0x8B), Some(0x80)];
    assert_eq!(pattern_scan(&image, &pattern), Some(0));
    let pattern = [Some(0x20u8), Some(0x8B)];
    assert_eq!(pattern_scan(&image, &pattern), Some(5));
    let pattern = [Some(0x8Bu8), Some(0x81)];
    assert_eq!(pattern_scan(&image, &pattern), None);
}

#[test]
fn scan_skips_last_window() {
    let image = [1u8, 2, 3, 4];
    assert_eq!(pattern_scan(&image, &[Some(3u8), Some(4)]), None);
    assert_eq!(pattern_scan(&image, &[Some(2u8), Some(3)]), Some(1));
    assert_eq!(pattern_scan(&image, &[Some(4u8)]), None);
    assert_eq!(pattern_scan(&image, &[None, None]), Some(0));
    assert_eq!(pattern_scan(&image, &[]), Some(0));
    assert_eq!(pattern_scan(&image, &[None, None, None, None]), None);
}

#[test]
fn lfanew_read() {
    let mut dos = [0u8; 0x40];
    dos[0x3C..0x40].copy_from_slice(&0xE8u32.to_le_bytes());
    assert_eq!(e_lfanew(&dos), 0xE8);
    dos[0x3C..0x40].copy_from_slice(&(-16i32).to_le_bytes());
    assert_eq!(e_lfanew(&dos), -16);
    dos[0x3C..0x40].copy_from_slice(&i32::MIN.to_le_bytes());
    assert_eq!(e_lfanew(&dos), i32::MIN);
}

#[test]
fn size_of_image_read() {
    let mut nt = [0u8; 0x54];
    nt[0x50..0x54].copy_from_slice(&0x0123_4567u32.to_le_bytes());
    assert_eq!(size_of_image(&nt), 0x0123_4567);
    nt[0x50..0x54].copy_from_slice(&u32::MAX.to_le_bytes());
    assert_eq!(size_of_image(&nt), u32::MAX);
}

#[test]
fn names_get_nul() {
    assert_eq!(nul_terminated("engine.dll"), b"engine.dll\0".to_vec());
    assert_eq!(nul_terminated(""), vec![0u8]);
}

#[test]
fn vfunc_index_check() {
    assert!(check_vfunc_index(0, 3).is_ok());
    assert!(check_vfunc_index(3, 3).is_ok());
    assert!(matches!(check_vfunc_index(4, 3), Err(InterfaceErrorKind::InvalidVFuncIndex(4))));
    assert!(matches!(check_vfunc_index(-1, 3), Err(InterfaceErrorKind::InvalidVFuncIndex(-1))));
    assert!(check_vfunc_index(-1, usize::MAX).is_ok());
}

#[test]
fn lookups() {
    assert!(matches!(module_or_error("engine.dll", 0x1000), Ok(0x1000)));
    match module_or_error("engine.dll", 0) {
        Err(ProcessErrorKind::UnknownModule(s)) => assert_eq!(s, "engine.dll"),
        _ => panic!("expected an unknown module"),
    }
    match export_or_error("CreateInterface", 0) {
        Err(ProcessErrorKind::UnknownExport(s)) => assert_eq!(s, "CreateInterface"),
        _ => panic!("expected an unknown export"),
    }
    assert!(matches!(export_or_error("CreateInterface", 7), Ok(7)));
    match interface_or_error("VEngineClient014", 0) {
        Err(ProcessErrorKind::UnknownInterface(s)) => assert_eq!(s, "VEngineClient014"),
        _ => panic!("expected an unknown interface"),
    }
    assert!(matches!(interface_or_error("VEngineClient014", 9), Ok(9)));
}

#[test]
fn method_counting() {
    assert_eq!(count_methods(&[5, 6, 7, 0, 8, 0]), Some(3));
    assert_eq!(count_methods(&[0]), Some(0));
    assert_eq!(count_methods(&[1, 2]), None);
}

#[test]
fn hook_table_hooks() {
    let mut t = HookTable::new(&[10, 20, 30, 0, 99]).unwrap();
    assert_eq!(t.methods(), 3);
    assert_eq!(t.original_table(), &[10, 20, 30]);
    assert_eq!(t.own_table(), &[10, 20, 30]);
    assert!(t.hook_vfunc(77, 1).is_ok());
    assert_eq!(t.own_table(), &[10, 77, 30]);
    assert_eq!(t.original_table(), &[10, 20, 30]);
    assert!(matches!(t.hook_vfunc(1, 4), Err(InterfaceErrorKind::InvalidVFuncIndex(4))));
    assert!(matches!(t.hook_vfunc(1, -1), Err(InterfaceErrorKind::InvalidVFuncIndex(-1))));
    assert_eq!(t.own_table(), &[10, 77, 30]);
    assert!(t.hook_vfunc(20, 1).is_ok());
    assert_eq!(t.own_table(), t.original_table());
    assert!(t.hook_vfunc(5, 2).is_ok());
    assert_eq!(t.own_table(), &[10, 20, 5]);
    assert!(HookTable::new(&[1, 2, 3]).is_none());
    assert_eq!(HookTable::new(&[0]).unwrap().methods(), 0);
}

#[test]
fn entry_point_actions() {
    assert_eq!(dll_action(DLL_PROCESS_ATTACH, true), DllAction::Attach);
    assert_eq!(dll_action(DLL_PROCESS_ATTACH, false), DllAction::Attach);
    assert_eq!(dll_action(DLL_PROCESS_DETACH, false), DllAction::Detach);
    assert_eq!(dll_action(DLL_PROCESS_DETACH, true), DllAction::Ignore);
    assert_eq!(dll_action(2, false), DllAction::Ignore);
    assert_eq!(dll_action(3, false), DllAction::Ignore);
}

#[test]
fn clip_is_idempotent() {
    for n in -5..10 {
        let once = clip_number(n, 0, 3);
        assert_eq!(clip_number(once, 0, 3), once);
        assert!(once == n || once == 0 || once == 3);
    }
}
