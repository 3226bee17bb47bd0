use kjit::harness::active_step::{memory_comparison, register_comparison};
use kjit::harness::model::MachineState;

#[test]
fn register_comparison_detects_equal_and_different_values() {
    let mut original = MachineState::new();
    let mut translated = MachineState::new();
    original.write_x(0, 1);
    translated.write_x(0, 1);
    original.write_x(9, 2);
    translated.write_x(9, 3);
    original.set_sp(0x1000);
    translated.set_sp(0x2000);
    original.flags.z = true;

    let rows = register_comparison(&original, &translated);

    assert!(rows.iter().find(|row| row.name == "x0").unwrap().equal);
    assert!(!rows.iter().find(|row| row.name == "x9").unwrap().equal);
    assert!(!rows.iter().find(|row| row.name == "sp").unwrap().equal);
    assert!(!rows.iter().find(|row| row.name == "NZCV").unwrap().equal);
}

#[test]
fn memory_comparison_ignores_runtime_ranges_and_catches_user_writes() {
    let mut initial = MachineState::new();
    let mut original = MachineState::new();
    let mut translated = MachineState::new();
    initial.seed_memory_u64(0x1000, 0x11);
    original.write_u64(0x1000, 0x22);
    translated.write_u64(0x1000, 0x22);
    original.write_u64(0x7fe000, 0xaa);
    translated.write_u64(0x7fe000, 0xbb);

    let rows = memory_comparison(&initial, &original, &translated, &[(0x7fe000, 0x7fe100)]);

    assert_eq!(rows.len(), 1);
    assert_eq!(rows[0].addr, 0x1000);
    assert!(rows[0].equal);
}

#[test]
fn memory_comparison_reports_unequal_bytes_in_address_order() {
    let initial = MachineState::new();
    let mut original = MachineState::new();
    let mut translated = MachineState::new();
    original.write_u32(0x20, 0x0000_00ff);
    translated.write_u32(0x10, 0x0000_0001);

    let rows = memory_comparison(&initial, &original, &translated, &[]);

    assert_eq!(rows.len(), 8);
    assert_eq!(rows[0].addr, 0x10);
    assert_eq!(rows[0].translated, Some(1));
    assert_eq!(rows[0].original, None);
    assert!(!rows[0].equal);
    assert_eq!(rows[4].addr, 0x20);
    assert_eq!(rows[4].original, Some(0xff));
    assert!(rows.windows(2).all(|w| w[0].addr < w[1].addr));
}
