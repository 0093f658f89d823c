//! The supervisor's verdict on a loop that returns.
//!
//! The daemon races its two loops and neither is meant to finish: the
//! workload generator and the capture-and-upload loop both run until the
//! process dies. Whichever of them returns first, for whatever reason, is
//! an anomaly; the supervisor names the loop that exited and halts the
//! process. There is no coordinated shutdown and nothing to salvage.

use vstd::prelude::*;
use vstd::string::StringExecFns;

verus! {

/// The two indefinitely running loops the supervisor races.
#[derive(Clone, Copy, Debug, PartialEq, Eq, Structural)]
pub enum LoopId {
    /// The allocation workload generator.
    WorkloadGenerator,
    /// The capture-and-upload loop.
    CaptureUpload,
}

/// The supervisor's decision once a loop has returned.
pub struct Verdict {
    /// Always set: any loop exit is abnormal and ends the process.
    pub halt: bool,
    /// The report naming the loop that exited.
    pub report: String,
}

/// The report the supervisor emits for each loop.
pub open spec fn report_of(which: LoopId) -> Seq<char> {
    match which {
        LoopId::WorkloadGenerator => "allocator loop unexpectedly quit"@,
        LoopId::CaptureUpload => "write profile loop unexpectedly quit"@,
    }
}

/// Judges a loop that has returned: the verdict always halts the process
/// and its report names the loop that exited.
pub fn on_loop_exit(which: LoopId) -> (v: Verdict)
    ensures
        v.halt,
        v.report@ == report_of(which),
{
    match which {
        LoopId::WorkloadGenerator => Verdict {
            halt: true,
            report: String::from_str("allocator loop unexpectedly quit"),
        },
        LoopId::CaptureUpload => Verdict {
            halt: true,
            report: String::from_str("write profile loop unexpectedly quit"),
        },
    }
}

/// Exiting is fatal no matter which loop exits and no matter why: both
/// verdicts halt, and each report identifies its loop unambiguously.
pub proof fn lemma_any_exit_halts()
    ensures
        forall|which: LoopId| (#[trigger] report_of(which)).len() > 0,
        report_of(LoopId::WorkloadGenerator) != report_of(LoopId::CaptureUpload),
{
    reveal_strlit("allocator loop unexpectedly quit");
    reveal_strlit("write profile loop unexpectedly quit");
    assert(report_of(LoopId::WorkloadGenerator).len() > 0);
    assert(report_of(LoopId::CaptureUpload).len() > 0);
    assert forall|which: LoopId| (#[trigger] report_of(which)).len() > 0 by {
        match which {
            LoopId::WorkloadGenerator => {},
            LoopId::CaptureUpload => {},
        }
    }
}

} // verus!
