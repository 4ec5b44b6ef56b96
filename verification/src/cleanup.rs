//! The shutdown coordinator: on interrupt it stops the trace session,
//! drains the snapshot channel to the latest tracked-process set, and
//! tries to eject the companion module from every process in it. A
//! process that is gone, or that no longer holds the module, is logged
//! and skipped — never an error. The exit code reflects only whether
//! the trace session stopped cleanly.
//!
//! Probing a process and performing the ejection are the operating
//! system's work; what it found comes back as an [`EjectProbe`], and the
//! coordinator's verdict on it is decided here.

use vstd::prelude::*;

verus! {

/// What the cleanup pass found when it went to eject one tracked
/// process.
#[derive(Clone, Copy, PartialEq, Eq, Structural, Debug)]
pub enum EjectProbe {
    /// The process no longer exists: its unload event was never
    /// captured.
    ProcessGone,
    /// The process exists but looking for the companion module in it
    /// failed.
    ModuleLookupFailed,
    /// The process exists and was searched, but no longer holds the
    /// module.
    ModuleAbsent,
    /// The module was found and ejection was attempted.
    ModulePresent { eject_ok: bool },
}

/// The coordinator's verdict on one tracked process.
#[derive(Clone, Copy, PartialEq, Eq, Structural, Debug)]
pub enum EjectOutcome {
    /// Skipped with a warning: the process had already exited.
    SkippedProcessGone,
    /// Skipped with a warning: the module could not be looked for.
    SkippedLookupFailed,
    /// Skipped with a warning: the module was no longer there.
    SkippedModuleAbsent,
    /// The module left the process cleanly.
    Ejected,
    /// The ejection call itself failed; logged as an error, the pass
    /// continues.
    EjectFailed,
}

/// How each probe is judged: every variant maps to exactly one verdict,
/// and only a present module that ejected cleanly counts as ejected.
pub open spec fn spec_eject_outcome(probe: EjectProbe) -> EjectOutcome {
    match probe {
        EjectProbe::ProcessGone => EjectOutcome::SkippedProcessGone,
        EjectProbe::ModuleLookupFailed => EjectOutcome::SkippedLookupFailed,
        EjectProbe::ModuleAbsent => EjectOutcome::SkippedModuleAbsent,
        EjectProbe::ModulePresent { eject_ok } => if eject_ok {
            EjectOutcome::Ejected
        } else {
            EjectOutcome::EjectFailed
        },
    }
}

/// Judges what the cleanup pass found for one process.
pub fn classify_eject(probe: &EjectProbe) -> (outcome: EjectOutcome)
    ensures
        outcome == spec_eject_outcome(*probe),
{
    match probe {
        EjectProbe::ProcessGone => EjectOutcome::SkippedProcessGone,
        EjectProbe::ModuleLookupFailed => EjectOutcome::SkippedLookupFailed,
        EjectProbe::ModuleAbsent => EjectOutcome::SkippedModuleAbsent,
        EjectProbe::ModulePresent { eject_ok } => if *eject_ok {
            EjectOutcome::Ejected
        } else {
            EjectOutcome::EjectFailed
        },
    }
}

/// Judges a whole cleanup pass, one verdict per tracked process, in
/// order; no probe result ever aborts the remaining ones.
pub fn cleanup_outcomes(probes: &Vec<EjectProbe>) -> (outcomes: Vec<EjectOutcome>)
    ensures
        outcomes@.len() == probes@.len(),
        forall|i: int|
            0 <= i < probes@.len() ==> outcomes@[i] == spec_eject_outcome(#[trigger] probes@[i]),
{
    let n = probes.len();
    let mut outcomes: Vec<EjectOutcome> = Vec::new();
    let mut i: usize = 0;
    while i < n
        invariant
            n == probes.len(),
            0 <= i <= n,
            outcomes@.len() == i,
            forall|k: int|
                0 <= k < i ==> outcomes@[k] == spec_eject_outcome(#[trigger] probes@[k]),
        decreases n - i,
    {
        let outcome = classify_eject(&probes[i]);
        outcomes.push(outcome);
        i += 1;
    }
    outcomes
}

/// The process's exit code: zero exactly when the trace session stopped
/// cleanly. Per-process ejection outcomes are logged, never reflected
/// here.
pub fn cleanup_exit_code(trace_stop_ok: bool) -> (code: i32)
    ensures
        code == 0 <==> trace_stop_ok,
        !trace_stop_ok ==> code == -1,
{
    if trace_stop_ok {
        0
    } else {
        -1
    }
}

} // verus!
