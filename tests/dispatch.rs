use kernel::init::boot::{next_step, BootStep};
use kernel::init::gdt::{Selectors, DOUBLE_FAULT_IST_INDEX};
use kernel::init::idt::{
    dispatch_table, handler_for, Entry, Handler, Outcome, KEYBOARD_INTERRUPT_ID, TIMER_INTERRUPT_ID, VECTORS,
};
use x86_64::registers::segmentation::SegmentSelector;

const ALL: [Handler; 22] = [
    Handler::DivideError,
    Handler::Debug,
    Handler::NonMaskable,
    Handler::Breakpoint,
    Handler::Overflow,
    Handler::BoundRange,
    Handler::InvalidOpcode,
    Handler::DeviceNotAvailable,
    Handler::DoubleFault,
    Handler::InvalidTss,
    Handler::SegmentNotPresent,
    Handler::StackSegment,
    Handler::GeneralProtection,
    Handler::PageFault,
    Handler::X87FloatingPoint,
    Handler::AlignmentCheck,
    Handler::MachineCheck,
    Handler::SimdFloatingPoint,
    Handler::Virtualization,
    Handler::SecurityException,
    Handler::Timer,
    Handler::Keyboard,
];

#[test]
fn table_has_a_slot_per_vector() {
    let t = dispatch_table();
    assert_eq!(t.len(), VECTORS);
    assert_eq!(t.iter().filter(|e| e.is_some()).count(), ALL.len());
    assert_eq!(t[9], None);
    assert_eq!(t[15], None);
    assert_eq!(t[255], None);
}

#[test]
fn every_handler_sits_at_its_vector() {
    let t = dispatch_table();
    for h in ALL {
        let v = h.vector();
        assert_eq!(handler_for(v), Some(h));
        assert_eq!(t[v as usize].map(|e: Entry| e.handler), Some(h));
    }
    assert_eq!(Handler::Timer.vector(), TIMER_INTERRUPT_ID);
    assert_eq!(Handler::Keyboard.vector(), KEYBOARD_INTERRUPT_ID);
    assert_eq!(TIMER_INTERRUPT_ID, 32);
    assert_eq!(KEYBOARD_INTERRUPT_ID, 33);
    assert_eq!(Handler::PageFault.vector(), 14);
}

#[test]
fn double_fault_runs_on_its_own_stack() {
    let t = dispatch_table();
    assert_eq!(
        t[8],
        Some(Entry { handler: Handler::DoubleFault, stack_index: Some(DOUBLE_FAULT_IST_INDEX) })
    );
    for (v, e) in t.iter().enumerate() {
        if v != 8 {
            if let Some(e) = e {
                assert_eq!(e.stack_index, None);
            }
        }
    }
}

#[test]
fn only_double_fault_machine_check_and_page_fault_halt() {
    for h in ALL {
        let fatal = matches!(h, Handler::DoubleFault | Handler::MachineCheck | Handler::PageFault);
        assert_eq!(h.outcome() == Outcome::Halt, fatal);
        assert_eq!(h.outcome() == Outcome::Resume, !fatal);
    }
}

#[test]
fn hardware_lines_acknowledge() {
    for h in ALL {
        assert_eq!(h.is_hardware_line(), matches!(h, Handler::Timer | Handler::Keyboard));
    }
}

#[test]
fn error_codes_and_names() {
    assert!(Handler::DoubleFault.has_error_code());
    assert!(Handler::PageFault.has_error_code());
    assert!(Handler::GeneralProtection.has_error_code());
    assert!(!Handler::Breakpoint.has_error_code());
    assert!(!Handler::MachineCheck.has_error_code());
    assert_eq!(Handler::DivideError.name(), "DIVIDE BY ZERO");
    assert_eq!(Handler::DoubleFault.name(), "DOUBLE FAULT");
    assert_eq!(Handler::SecurityException.name(), "SECURITY EXCEPTION");
}

#[test]
fn boot_runs_when_both_tables_load() {
    let mut step = BootStep::first();
    let mut order = Vec::new();
    while !step.is_final() {
        order.push(step);
        step = next_step(step, true);
    }
    assert_eq!(step, BootStep::Running);
    assert_eq!(
        order,
        vec![
            BootStep::LoadSegments,
            BootStep::LoadDispatchTable,
            BootStep::InitializeController,
            BootStep::EnableInterrupts
        ]
    );
}

#[test]
fn boot_aborts_when_a_table_fails() {
    assert_eq!(next_step(BootStep::LoadSegments, false), BootStep::Aborted);
    assert_eq!(next_step(BootStep::LoadDispatchTable, false), BootStep::Aborted);
    assert_eq!(next_step(BootStep::Aborted, true), BootStep::Aborted);
    assert_eq!(next_step(BootStep::InitializeController, false), BootStep::EnableInterrupts);
}

#[test]
fn selectors_keep_both_segments() {
    let s = Selectors::new(SegmentSelector(0x08), SegmentSelector(0x10));
    assert_eq!(s.code_selector.0, 0x08);
    assert_eq!(s.tss_selector.0, 0x10);
}
