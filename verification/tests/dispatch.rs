use kernel::initialize;
use kernel::irc::{irc_execute, register_isr, DispatchError, DispatchOutcome, IsrEntry, IsrTable};
use kernel::pl390::{
    enable_interrupt, pl390_initialize, read_iccpmr, set_priority, write_icciar, Event,
    INITIAL_PRIORITY_MASK, SPURIOUS_ID,
};

#[test]
fn kernel_initialize_builds_empty_table() {
    let k = initialize();
    assert_eq!(k.cpu_cb.imask, 0);
    assert_eq!(k.isr_table.entries.len(), 256);
    assert!(k.isr_table.entries.iter().all(|e| *e == IsrEntry::Empty));
}

#[test]
fn register_fills_and_overwrites_slot() {
    let mut t = IsrTable::new();
    register_isr(&mut t, 33, 4, -9);
    assert_eq!(t.entries[33], IsrEntry::Registered { handler: 4, exinf: -9 });
    register_isr(&mut t, 33, 6, 1);
    assert_eq!(t.entries[33], IsrEntry::Registered { handler: 6, exinf: 1 });
    assert_eq!(t.entries[32], IsrEntry::Empty);
}

/// The full scenario: line 33 configured at priority 0x10 and enabled, a
/// routine registered with argument 7, acknowledge staged to return 33. The
/// dispatch must write end-of-interrupt with 33, raise the mask to 0x10 and
/// restore it, and invoke the routine with 7 exactly once.
#[test]
fn dispatch_scenario_line_33() {
    let mut g = pl390_initialize(0, 0);
    set_priority(&mut g, 33, 0x10);
    enable_interrupt(&mut g, 33);
    let mut t = IsrTable::new();
    let handler_token: usize = 1;
    register_isr(&mut t, 33, handler_token, 7);

    write_icciar(&mut g, 33);
    let before = g.log.len();
    let r = irc_execute(&mut g, &t, 0);

    assert_eq!(r, Ok(DispatchOutcome::Handled { handler: handler_token, exinf: 7 }));
    assert_eq!(
        g.log[before..].to_vec(),
        vec![
            Event::PmrWrite { mask: 0x10 },
            Event::EoiWrite { value: 33 },
            Event::HandlerInvoked { handler: handler_token, exinf: 7 },
            Event::PmrWrite { mask: INITIAL_PRIORITY_MASK },
        ]
    );
    assert_eq!(read_iccpmr(&g), INITIAL_PRIORITY_MASK);
}

#[test]
fn dispatch_writes_eoi_exactly_once_before_handler() {
    let mut g = pl390_initialize(0, 0);
    set_priority(&mut g, 90, 0x30);
    let mut t = IsrTable::new();
    register_isr(&mut t, 90, 2, 11);
    write_icciar(&mut g, 90);
    let before = g.log.len();
    irc_execute(&mut g, &t, 0).unwrap();

    let suffix = &g.log[before..];
    let eoi_positions: Vec<usize> = suffix
        .iter()
        .enumerate()
        .filter(|(_, e)| matches!(e, Event::EoiWrite { .. }))
        .map(|(i, _)| i)
        .collect();
    let handler_positions: Vec<usize> = suffix
        .iter()
        .enumerate()
        .filter(|(_, e)| matches!(e, Event::HandlerInvoked { .. }))
        .map(|(i, _)| i)
        .collect();
    assert_eq!(eoi_positions.len(), 1);
    assert_eq!(suffix[eoi_positions[0]], Event::EoiWrite { value: 90 });
    assert_eq!(handler_positions.len(), 1);
    assert!(eoi_positions[0] < handler_positions[0]);
}

#[test]
fn dispatch_restores_priority_mask() {
    let mut g = pl390_initialize(0, 0);
    set_priority(&mut g, 5, 0x20);
    let t = IsrTable::new();
    // Unhandled path.
    write_icciar(&mut g, 5);
    let pmr_before = read_iccpmr(&g);
    irc_execute(&mut g, &t, 0).unwrap();
    assert_eq!(read_iccpmr(&g), pmr_before);
    // Handled path.
    let mut t = t;
    register_isr(&mut t, 5, 9, 0);
    write_icciar(&mut g, 5);
    irc_execute(&mut g, &t, 0).unwrap();
    assert_eq!(read_iccpmr(&g), pmr_before);
}

#[test]
fn dispatch_spurious_does_nothing() {
    let mut g = pl390_initialize(0, 0);
    let t = IsrTable::new();
    write_icciar(&mut g, SPURIOUS_ID);
    let snapshot = g.clone();
    let r = irc_execute(&mut g, &t, 0);
    assert_eq!(r, Ok(DispatchOutcome::Spurious));
    assert_eq!(g, snapshot);
    assert!(!g.log.iter().any(|e| matches!(e, Event::EoiWrite { .. })));
    assert!(!g.log.iter().any(|e| matches!(e, Event::HandlerInvoked { .. })));
}

#[test]
fn dispatch_unhandled_reports_once_and_invokes_nothing() {
    let mut g = pl390_initialize(0, 0);
    let t = IsrTable::new();
    write_icciar(&mut g, 40);
    let before = g.log.len();
    let r = irc_execute(&mut g, &t, 0);
    assert_eq!(r, Ok(DispatchOutcome::Unhandled { id: 40 }));
    let suffix = &g.log[before..];
    let unhandled: Vec<&Event> =
        suffix.iter().filter(|e| matches!(e, Event::Unhandled { .. })).collect();
    assert_eq!(unhandled.len(), 1);
    assert_eq!(*unhandled[0], Event::Unhandled { id: 40 });
    assert!(!suffix.iter().any(|e| matches!(e, Event::HandlerInvoked { .. })));
    // The line is still retired: exactly one end-of-interrupt write.
    assert_eq!(
        suffix.iter().filter(|e| matches!(e, Event::EoiWrite { .. })).count(),
        1
    );
}

#[test]
fn dispatch_out_of_range_identifier_is_fatal() {
    let mut g = pl390_initialize(0, 0);
    let t = IsrTable::new();
    write_icciar(&mut g, 600);
    let snapshot = g.clone();
    let r = irc_execute(&mut g, &t, 0);
    assert_eq!(r, Err(DispatchError::UnexpectedAck { value: 600 }));
    assert_eq!(g, snapshot);
}

#[test]
fn dispatch_boundary_identifiers() {
    let mut g = pl390_initialize(0, 0);
    let mut t = IsrTable::new();
    register_isr(&mut t, 0, 1, 0);
    register_isr(&mut t, 255, 2, -1);
    write_icciar(&mut g, 0);
    assert_eq!(
        irc_execute(&mut g, &t, 0),
        Ok(DispatchOutcome::Handled { handler: 1, exinf: 0 })
    );
    write_icciar(&mut g, 255);
    assert_eq!(
        irc_execute(&mut g, &t, 0),
        Ok(DispatchOutcome::Handled { handler: 2, exinf: -1 })
    );
    // 256 is the first fatal identifier.
    write_icciar(&mut g, 256);
    assert_eq!(
        irc_execute(&mut g, &t, 0),
        Err(DispatchError::UnexpectedAck { value: 256 })
    );
}
