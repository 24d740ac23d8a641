//! The supervisor loop's fixed decisions: what a check outcome demands,
//! and when an idle cycle throttles. The loop itself — threads, sleeps,
//! joins — lives in the embedding program and follows these verdicts.

use vstd::prelude::*;

use crate::common::CHECKS_INTERVAL;
use crate::mortal::Mortal;

verus! {

/// What the loop does with one service's check outcome.
#[derive(Debug, Clone, Copy, PartialEq, Eq, Structural)]
pub enum Remedy {
    /// The checks passed: log and move on.
    Observe,
    /// Notify only: a full disk cannot be fixed by restarting the
    /// service.
    NotifyOnly,
    /// Notify, then restart unconditionally — whatever the notification's
    /// own outcome was.
    NotifyAndRestart,
}

/// The remedy a check outcome demands: success is observed, the two disk
/// failures are reported without remediation, and every other failure is
/// notified and then restarted.
pub open spec fn spec_remedy_for(outcome: Result<Mortal, Mortal>) -> Remedy {
    match outcome {
        Ok(_) => Remedy::Observe,
        Err(m) => match m {
            Mortal::CheckDiskSpace { .. } => Remedy::NotifyOnly,
            Mortal::CheckDiskInodes { .. } => Remedy::NotifyOnly,
            _ => Remedy::NotifyAndRestart,
        },
    }
}

/// Decide the remedy for one service's check outcome.
pub fn remedy_for(outcome: &Result<Mortal, Mortal>) -> (r: Remedy)
    ensures
        r == spec_remedy_for(*outcome),
{
    match outcome {
        Ok(_) => Remedy::Observe,
        Err(m) => match m {
            Mortal::CheckDiskSpace { .. } => Remedy::NotifyOnly,
            Mortal::CheckDiskInodes { .. } => Remedy::NotifyOnly,
            _ => Remedy::NotifyAndRestart,
        },
    }
}

/// How long the loop pauses after a cycle: a cycle that found no
/// definition files sleeps the full check interval, one that found any
/// proceeds at once, since each unit already paced itself.
pub fn cycle_pause_ms(services_found: usize) -> (r: u64)
    ensures
        services_found == 0 ==> r == CHECKS_INTERVAL,
        services_found > 0 ==> r == 0,
{
    if services_found == 0 {
        CHECKS_INTERVAL
    } else {
        0
    }
}

} // verus!
