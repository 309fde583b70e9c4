use kernel::pl390::{
    disable_interrupt, enable_interrupt, get_priority, interrupt_enabled, pl390_initialize,
    read_iccpmr, set_priority, write_iccbpr, write_icdicer, write_icdicfr, write_icdipr,
    write_icdiptr, write_icdiser, write_icdsgir, Event, ICC_ENABLE, INITIAL_PRIORITY_MASK,
    SPURIOUS_ID,
};

#[test]
fn initialize_sets_threshold_and_signaling() {
    let g = pl390_initialize(0xf8f0_0100, 0xf8f0_1000);
    assert_eq!(g.icc_address, 0xf8f0_0100);
    assert_eq!(g.icd_address, 0xf8f0_1000);
    assert_eq!(read_iccpmr(&g), INITIAL_PRIORITY_MASK);
    assert_eq!(g.icc_ctrl, ICC_ENABLE);
    assert_eq!(g.icc_iar, SPURIOUS_ID);
    assert_eq!(g.enable, vec![0u32; 8]);
    assert_eq!(g.pending, vec![0u32; 8]);
    assert_eq!(g.priority, vec![0u8; 256]);
    assert_eq!(g.target, vec![0u8; 256]);
    assert_eq!(g.config, vec![0u32; 16]);
    assert_eq!(g.log, vec![Event::PmrWrite { mask: INITIAL_PRIORITY_MASK }]);
}

#[test]
fn enable_then_query_shows_enabled() {
    let mut g = pl390_initialize(0, 0);
    for &id in &[0i32, 1, 31, 32, 33, 100, 255] {
        assert!(!interrupt_enabled(&g, id));
        enable_interrupt(&mut g, id);
        assert!(interrupt_enabled(&g, id));
    }
    // All seven stay enabled; their neighbours are untouched.
    for &id in &[0i32, 1, 31, 32, 33, 100, 255] {
        assert!(interrupt_enabled(&g, id));
    }
    assert!(!interrupt_enabled(&g, 2));
    assert!(!interrupt_enabled(&g, 30));
    assert!(!interrupt_enabled(&g, 34));
    assert!(!interrupt_enabled(&g, 254));
}

#[test]
fn disable_then_query_shows_disabled() {
    let mut g = pl390_initialize(0, 0);
    enable_interrupt(&mut g, 33);
    enable_interrupt(&mut g, 34);
    disable_interrupt(&mut g, 33);
    assert!(!interrupt_enabled(&g, 33));
    assert!(interrupt_enabled(&g, 34));
    // Disabling an already disabled line is harmless.
    disable_interrupt(&mut g, 33);
    assert!(!interrupt_enabled(&g, 33));
}

#[test]
fn repeated_enable_is_idempotent() {
    let mut g = pl390_initialize(0, 0);
    enable_interrupt(&mut g, 77);
    let banks = g.enable.clone();
    enable_interrupt(&mut g, 77);
    assert_eq!(g.enable, banks);
    assert!(interrupt_enabled(&g, 77));
}

#[test]
fn write_one_to_set_and_clear_semantics() {
    let mut g = pl390_initialize(0, 0);
    // Writing a word with bits 0 and 2 set enables exactly lines 0 and 2.
    write_icdiser(&mut g, 0, 0b101);
    assert!(interrupt_enabled(&g, 0));
    assert!(!interrupt_enabled(&g, 1));
    assert!(interrupt_enabled(&g, 2));
    // A zero bit in a later set-write leaves enabled lines alone.
    write_icdiser(&mut g, 0, 0b010);
    assert!(interrupt_enabled(&g, 0));
    assert!(interrupt_enabled(&g, 1));
    // The clear bank clears only the 1 bits.
    write_icdicer(&mut g, 0, 0b100);
    assert!(interrupt_enabled(&g, 0));
    assert!(interrupt_enabled(&g, 1));
    assert!(!interrupt_enabled(&g, 2));
}

#[test]
fn priority_roundtrip() {
    let mut g = pl390_initialize(0, 0);
    set_priority(&mut g, 33, 0x10);
    set_priority(&mut g, 34, 0xa0);
    assert_eq!(get_priority(&g, 33), 0x10);
    assert_eq!(get_priority(&g, 34), 0xa0);
    assert_eq!(get_priority(&g, 32), 0);
    set_priority(&mut g, 33, 0xf8);
    assert_eq!(get_priority(&g, 33), 0xf8);
}

#[test]
fn low_level_accessors_store_their_values() {
    let mut g = pl390_initialize(0, 0);
    write_iccbpr(&mut g, 3);
    assert_eq!(g.icc_bpr, 3);
    write_icdipr(&mut g, 200, 0x40);
    assert_eq!(g.priority[200], 0x40);
    write_icdiptr(&mut g, 45, 0x02);
    assert_eq!(g.target[45], 0x02);
    write_icdicfr(&mut g, 2, 0x5555_5555);
    assert_eq!(g.config[2], 0x5555_5555);
    write_icdsgir(&mut g, 0x0001_8001);
    assert_eq!(g.icd_sgir, 0x0001_8001);
}
