//! # Segment and task-state setup
//!
//! The kernel code segment and the task-state segment, whose interrupt stack
//! table holds the stack reserved for the double fault.
use vstd::prelude::*;

use x86_64::registers::segmentation::SegmentSelector;

verus! {

/// The slot of the interrupt stack table that holds the double-fault stack.
pub const DOUBLE_FAULT_IST_INDEX: u16 = 0;

/// Bytes of the stack reserved for the double fault.
pub const DOUBLE_FAULT_STACK_SIZE: usize = 4096;

#[verifier::external_type_specification]
#[verifier::external_body]
pub struct ExSegmentSelector(SegmentSelector);

/// The selectors of the kernel code segment and of the task-state segment.
#[derive(Clone, Copy)]
pub struct Selectors {
    pub code_selector: SegmentSelector,
    pub tss_selector: SegmentSelector,
}

impl Selectors {
    /// Pairs the two selectors.
    pub fn new(code_selector: SegmentSelector, tss_selector: SegmentSelector) -> (r: Selectors)
        ensures
            r.code_selector == code_selector,
            r.tss_selector == tss_selector,
    {
        Selectors { code_selector, tss_selector }
    }
}

} // verus!
