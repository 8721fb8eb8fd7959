//! # Boot order
//!
//! Boot brings up, in order, the segment and task-state tables, the dispatch
//! table and the interrupt controller, then unmasks interrupts. A failure of
//! either table aborts boot: the machine then has no safety net to run on.
use vstd::prelude::*;

verus! {

/// Where boot stands: the step to perform next, or how it ended.
#[derive(Clone, Copy, PartialEq, Eq, Debug, Structural)]
pub enum BootStep {
    LoadSegments,
    LoadDispatchTable,
    InitializeController,
    EnableInterrupts,
    Running,
    Aborted,
}

/// The step after `step`, given whether `step` succeeded. Only the two
/// table loads can fail; the controller and the interrupt flag cannot.
pub open spec fn spec_next_step(step: BootStep, succeeded: bool) -> BootStep {
    match step {
        BootStep::LoadSegments => if succeeded {
            BootStep::LoadDispatchTable
        } else {
            BootStep::Aborted
        },
        BootStep::LoadDispatchTable => if succeeded {
            BootStep::InitializeController
        } else {
            BootStep::Aborted
        },
        BootStep::InitializeController => BootStep::EnableInterrupts,
        BootStep::EnableInterrupts => BootStep::Running,
        BootStep::Running => BootStep::Running,
        BootStep::Aborted => BootStep::Aborted,
    }
}

impl BootStep {
    /// The first step of boot.
    pub fn first() -> (r: BootStep)
        ensures
            r == BootStep::LoadSegments,
    {
        BootStep::LoadSegments
    }

    /// Boot has ended, running or aborted.
    pub open spec fn spec_is_final(self) -> bool {
        self == BootStep::Running || self == BootStep::Aborted
    }

    /// Whether boot has ended, running or aborted.
    pub fn is_final(self) -> (r: bool)
        ensures
            r == self.spec_is_final(),
    {
        match self {
            BootStep::Running | BootStep::Aborted => true,
            _ => false,
        }
    }
}

/// The step after `step`, given whether `step` succeeded.
pub fn next_step(step: BootStep, succeeded: bool) -> (r: BootStep)
    ensures
        r == spec_next_step(step, succeeded),
{
    match step {
        BootStep::LoadSegments => if succeeded {
            BootStep::LoadDispatchTable
        } else {
            BootStep::Aborted
        },
        BootStep::LoadDispatchTable => if succeeded {
            BootStep::InitializeController
        } else {
            BootStep::Aborted
        },
        BootStep::InitializeController => BootStep::EnableInterrupts,
        BootStep::EnableInterrupts => BootStep::Running,
        BootStep::Running => BootStep::Running,
        BootStep::Aborted => BootStep::Aborted,
    }
}

/// Boot runs when both tables load and aborts when either fails, and in
/// either case it has ended after the four steps; interrupts are unmasked
/// only after both tables and the controller are up.
pub proof fn lemma_boot_outcome(segments_ok: bool, table_ok: bool, c: bool, e: bool)
    ensures
        ({
            let s1 = spec_next_step(BootStep::LoadSegments, segments_ok);
            let s2 = spec_next_step(s1, table_ok);
            let s3 = spec_next_step(s2, c);
            let s4 = spec_next_step(s3, e);
            &&& s4 == (if segments_ok && table_ok {
                BootStep::Running
            } else {
                BootStep::Aborted
            })
            &&& (s3 == BootStep::EnableInterrupts <==> segments_ok && table_ok)
        }),
{
}

} // verus!
