//! # Exception and interrupt dispatch table
//!
//! Which handler each vector is bound to, and what each handler does once
//! it has reported: resume the interrupted code or halt the processor.
use vstd::prelude::*;

use crate::init::gdt::DOUBLE_FAULT_IST_INDEX;

verus! {

/// The first vector of the remapped hardware interrupt lines.
pub const PIC_1_OFFSET: u8 = 32;

/// The vector of the timer line.
pub const TIMER_INTERRUPT_ID: u8 = PIC_1_OFFSET;

/// The vector of the keyboard line.
pub const KEYBOARD_INTERRUPT_ID: u8 = PIC_1_OFFSET + 1;

/// The number of vectors of the table.
pub const VECTORS: usize = 256;

/// The handlers of this kernel, one per vector it understands.
#[derive(Clone, Copy, PartialEq, Eq, Debug, Structural)]
pub enum Handler {
    DivideError,
    Debug,
    NonMaskable,
    Breakpoint,
    Overflow,
    BoundRange,
    InvalidOpcode,
    DeviceNotAvailable,
    DoubleFault,
    InvalidTss,
    SegmentNotPresent,
    StackSegment,
    GeneralProtection,
    PageFault,
    X87FloatingPoint,
    AlignmentCheck,
    MachineCheck,
    SimdFloatingPoint,
    Virtualization,
    SecurityException,
    Timer,
    Keyboard,
}

/// What a handler does after its report.
#[derive(Clone, Copy, PartialEq, Eq, Debug, Structural)]
pub enum Outcome {
    /// Return to the interrupted code.
    Resume,
    /// Halt the processor for good.
    Halt,
}

impl Handler {
    /// The vector the handler is bound to.
    pub open spec fn spec_vector(self) -> u8 {
        match self {
            Handler::DivideError => 0,
            Handler::Debug => 1,
            Handler::NonMaskable => 2,
            Handler::Breakpoint => 3,
            Handler::Overflow => 4,
            Handler::BoundRange => 5,
            Handler::InvalidOpcode => 6,
            Handler::DeviceNotAvailable => 7,
            Handler::DoubleFault => 8,
            Handler::InvalidTss => 10,
            Handler::SegmentNotPresent => 11,
            Handler::StackSegment => 12,
            Handler::GeneralProtection => 13,
            Handler::PageFault => 14,
            Handler::X87FloatingPoint => 16,
            Handler::AlignmentCheck => 17,
            Handler::MachineCheck => 18,
            Handler::SimdFloatingPoint => 19,
            Handler::Virtualization => 20,
            Handler::SecurityException => 30,
            Handler::Timer => TIMER_INTERRUPT_ID,
            Handler::Keyboard => KEYBOARD_INTERRUPT_ID,
        }
    }

    /// The vector the handler is bound to.
    pub fn vector(self) -> (r: u8)
        ensures
            r == self.spec_vector(),
    {
        match self {
            Handler::DivideError => 0,
            Handler::Debug => 1,
            Handler::NonMaskable => 2,
            Handler::Breakpoint => 3,
            Handler::Overflow => 4,
            Handler::BoundRange => 5,
            Handler::InvalidOpcode => 6,
            Handler::DeviceNotAvailable => 7,
            Handler::DoubleFault => 8,
            Handler::InvalidTss => 10,
            Handler::SegmentNotPresent => 11,
            Handler::StackSegment => 12,
            Handler::GeneralProtection => 13,
            Handler::PageFault => 14,
            Handler::X87FloatingPoint => 16,
            Handler::AlignmentCheck => 17,
            Handler::MachineCheck => 18,
            Handler::SimdFloatingPoint => 19,
            Handler::Virtualization => 20,
            Handler::SecurityException => 30,
            Handler::Timer => TIMER_INTERRUPT_ID,
            Handler::Keyboard => KEYBOARD_INTERRUPT_ID,
        }
    }

    /// Double fault and machine check halt, as does a page fault, since this
    /// kernel does no demand paging; every other handler resumes.
    pub open spec fn spec_outcome(self) -> Outcome {
        match self {
            Handler::DoubleFault | Handler::MachineCheck | Handler::PageFault => Outcome::Halt,
            _ => Outcome::Resume,
        }
    }

    /// What the handler does after its report.
    pub fn outcome(self) -> (r: Outcome)
        ensures
            r == self.spec_outcome(),
    {
        match self {
            Handler::DoubleFault | Handler::MachineCheck | Handler::PageFault => Outcome::Halt,
            _ => Outcome::Resume,
        }
    }

    /// The processor pushes an error code for these exceptions.
    pub open spec fn spec_has_error_code(self) -> bool {
        match self {
            Handler::DoubleFault | Handler::InvalidTss | Handler::SegmentNotPresent
            | Handler::StackSegment | Handler::GeneralProtection | Handler::PageFault
            | Handler::AlignmentCheck | Handler::SecurityException => true,
            _ => false,
        }
    }

    /// Whether the processor pushes an error code for the handler's vector.
    pub fn has_error_code(self) -> (r: bool)
        ensures
            r == self.spec_has_error_code(),
    {
        match self {
            Handler::DoubleFault | Handler::InvalidTss | Handler::SegmentNotPresent
            | Handler::StackSegment | Handler::GeneralProtection | Handler::PageFault
            | Handler::AlignmentCheck | Handler::SecurityException => true,
            _ => false,
        }
    }

    /// Hardware lines, whose handlers must acknowledge the interrupt
    /// controller before they return.
    pub open spec fn spec_is_hardware_line(self) -> bool {
        self == Handler::Timer || self == Handler::Keyboard
    }

    /// Whether the handler serves a hardware line and must acknowledge the
    /// interrupt controller before it returns.
    pub fn is_hardware_line(self) -> (r: bool)
        ensures
            r == self.spec_is_hardware_line(),
    {
        match self {
            Handler::Timer | Handler::Keyboard => true,
            _ => false,
        }
    }

    /// The interrupt stack a handler runs on: the dedicated one for the
    /// double fault, the interrupted code's stack for every other.
    pub open spec fn spec_stack_index(self) -> Option<u16> {
        if self == Handler::DoubleFault {
            Some(DOUBLE_FAULT_IST_INDEX)
        } else {
            None
        }
    }

    /// The interrupt stack the handler runs on, if a dedicated one.
    pub fn stack_index(self) -> (r: Option<u16>)
        ensures
            r == self.spec_stack_index(),
    {
        match self {
            Handler::DoubleFault => Some(DOUBLE_FAULT_IST_INDEX),
            _ => None,
        }
    }

    /// The name the handler reports the condition under.
    pub open spec fn spec_name(self) -> Seq<char> {
        match self {
            Handler::DivideError => "DIVIDE BY ZERO"@,
            Handler::Debug => "DEBUG"@,
            Handler::NonMaskable => "NON MASKABLE INTERRUPT"@,
            Handler::Breakpoint => "BREAKPOINT"@,
            Handler::Overflow => "OVERFLOW"@,
            Handler::BoundRange => "BOUND RANGE EXCEEDED"@,
            Handler::InvalidOpcode => "INVALID OPCODE"@,
            Handler::DeviceNotAvailable => "DEVICE NOT AVAILABLE"@,
            Handler::DoubleFault => "DOUBLE FAULT"@,
            Handler::InvalidTss => "INVALID TSS"@,
            Handler::SegmentNotPresent => "SEGMENT NOT PRESENT"@,
            Handler::StackSegment => "STACK SEGMENT FAULT"@,
            Handler::GeneralProtection => "GENERAL PROTECTION FAULT"@,
            Handler::PageFault => "PAGE FAULT"@,
            Handler::X87FloatingPoint => "X87 FLOATING POINT"@,
            Handler::AlignmentCheck => "ALIGNMENT CHECK"@,
            Handler::MachineCheck => "MACHINE CHECK"@,
            Handler::SimdFloatingPoint => "SIMD FLOATING POINT"@,
            Handler::Virtualization => "VIRTUALIZATION"@,
            Handler::SecurityException => "SECURITY EXCEPTION"@,
            Handler::Timer => "TIMER"@,
            Handler::Keyboard => "KEYBOARD"@,
        }
    }

    /// The name the handler reports the condition under.
    pub fn name(self) -> (r: &'static str)
        ensures
            r@ == self.spec_name(),
    {
        match self {
            Handler::DivideError => "DIVIDE BY ZERO",
            Handler::Debug => "DEBUG",
            Handler::NonMaskable => "NON MASKABLE INTERRUPT",
            Handler::Breakpoint => "BREAKPOINT",
            Handler::Overflow => "OVERFLOW",
            Handler::BoundRange => "BOUND RANGE EXCEEDED",
            Handler::InvalidOpcode => "INVALID OPCODE",
            Handler::DeviceNotAvailable => "DEVICE NOT AVAILABLE",
            Handler::DoubleFault => "DOUBLE FAULT",
            Handler::InvalidTss => "INVALID TSS",
            Handler::SegmentNotPresent => "SEGMENT NOT PRESENT",
            Handler::StackSegment => "STACK SEGMENT FAULT",
            Handler::GeneralProtection => "GENERAL PROTECTION FAULT",
            Handler::PageFault => "PAGE FAULT",
            Handler::X87FloatingPoint => "X87 FLOATING POINT",
            Handler::AlignmentCheck => "ALIGNMENT CHECK",
            Handler::MachineCheck => "MACHINE CHECK",
            Handler::SimdFloatingPoint => "SIMD FLOATING POINT",
            Handler::Virtualization => "VIRTUALIZATION",
            Handler::SecurityException => "SECURITY EXCEPTION",
            Handler::Timer => "TIMER",
            Handler::Keyboard => "KEYBOARD",
        }
    }
}

/// The handler bound to a vector, if any.
pub open spec fn spec_handler_for(vector: u8) -> Option<Handler> {
    match vector {
        0 => Some(Handler::DivideError),
        1 => Some(Handler::Debug),
        2 => Some(Handler::NonMaskable),
        3 => Some(Handler::Breakpoint),
        4 => Some(Handler::Overflow),
        5 => Some(Handler::BoundRange),
        6 => Some(Handler::InvalidOpcode),
        7 => Some(Handler::DeviceNotAvailable),
        8 => Some(Handler::DoubleFault),
        10 => Some(Handler::InvalidTss),
        11 => Some(Handler::SegmentNotPresent),
        12 => Some(Handler::StackSegment),
        13 => Some(Handler::GeneralProtection),
        14 => Some(Handler::PageFault),
        16 => Some(Handler::X87FloatingPoint),
        17 => Some(Handler::AlignmentCheck),
        18 => Some(Handler::MachineCheck),
        19 => Some(Handler::SimdFloatingPoint),
        20 => Some(Handler::Virtualization),
        30 => Some(Handler::SecurityException),
        TIMER_INTERRUPT_ID => Some(Handler::Timer),
        KEYBOARD_INTERRUPT_ID => Some(Handler::Keyboard),
        _ => None,
    }
}

/// The handler bound to a vector, if any.
pub fn handler_for(vector: u8) -> (r: Option<Handler>)
    ensures
        r == spec_handler_for(vector),
{
    match vector {
        0 => Some(Handler::DivideError),
        1 => Some(Handler::Debug),
        2 => Some(Handler::NonMaskable),
        3 => Some(Handler::Breakpoint),
        4 => Some(Handler::Overflow),
        5 => Some(Handler::BoundRange),
        6 => Some(Handler::InvalidOpcode),
        7 => Some(Handler::DeviceNotAvailable),
        8 => Some(Handler::DoubleFault),
        10 => Some(Handler::InvalidTss),
        11 => Some(Handler::SegmentNotPresent),
        12 => Some(Handler::StackSegment),
        13 => Some(Handler::GeneralProtection),
        14 => Some(Handler::PageFault),
        16 => Some(Handler::X87FloatingPoint),
        17 => Some(Handler::AlignmentCheck),
        18 => Some(Handler::MachineCheck),
        19 => Some(Handler::SimdFloatingPoint),
        20 => Some(Handler::Virtualization),
        30 => Some(Handler::SecurityException),
        TIMER_INTERRUPT_ID => Some(Handler::Timer),
        KEYBOARD_INTERRUPT_ID => Some(Handler::Keyboard),
        _ => None,
    }
}

/// A bound slot of the table: its handler and the interrupt stack it runs on.
#[derive(Clone, Copy, PartialEq, Eq, Debug, Structural)]
pub struct Entry {
    pub handler: Handler,
    pub stack_index: Option<u16>,
}

/// The slot of a vector: absent, or bound to its handler and stack.
pub open spec fn spec_entry(vector: u8) -> Option<Entry> {
    match spec_handler_for(vector) {
        Some(h) => Some(Entry { handler: h, stack_index: h.spec_stack_index() }),
        None => None,
    }
}

/// Every handler is bound at its own vector, and a vector holds no other
/// handler than the one whose vector it is.
pub proof fn lemma_handlers_at_their_vectors(h: Handler, vector: u8)
    ensures
        spec_handler_for(h.spec_vector()) == Some(h),
        spec_handler_for(vector) == Some(h) ==> vector == h.spec_vector(),
{
}

/// The double-fault slot is bound, and bound to the dedicated stack; no
/// other slot runs on it.
pub proof fn lemma_double_fault_stack(vector: u8)
    ensures
        spec_entry(Handler::DoubleFault.spec_vector()) == Some(
            Entry { handler: Handler::DoubleFault, stack_index: Some(DOUBLE_FAULT_IST_INDEX) },
        ),
        vector != Handler::DoubleFault.spec_vector() ==> (spec_entry(vector) matches Some(e) ==> e.stack_index is None),
{
}

/// Double fault and machine check halt; every other handler but the page
/// fault's returns to the interrupted code after its report.
pub proof fn lemma_only_fatal_faults_halt(h: Handler)
    requires
        h != Handler::PageFault,
    ensures
        h.spec_outcome() == Outcome::Halt <==> (h == Handler::DoubleFault || h == Handler::MachineCheck),
        h.spec_outcome() == Outcome::Resume <==> !(h == Handler::DoubleFault || h == Handler::MachineCheck),
{
}

/// The table, one slot per vector.
pub fn dispatch_table() -> (r: Vec<Option<Entry>>)
    ensures
        r@.len() == VECTORS,
        forall|v: int| 0 <= v < VECTORS ==> #[trigger] r@[v] == spec_entry(v as u8),
{
    let mut table: Vec<Option<Entry>> = Vec::with_capacity(VECTORS);
    let mut v: usize = 0;
    while v < VECTORS
        invariant
            v <= VECTORS,
            table@.len() == v,
            forall|u: int| 0 <= u < v ==> #[trigger] table@[u] == spec_entry(u as u8),
        decreases VECTORS - v,
    {
        let slot = match handler_for(v as u8) {
            Some(h) => Some(Entry { handler: h, stack_index: h.stack_index() }),
            None => None,
        };
        table.push(slot);
        v = v + 1;
    }
    table
}

} // verus!
