//! Build-time dispatch decisions.
//!
//! Every primitive in this crate has two interchangeable realizations: a fast
//! one that only the most permissive toolchain channel offers, and the
//! portable one. Which body a build compiles is decided once, before any
//! primitive is selected, by the single flag computed here — no primitive
//! re-detects the capability on its own, and no runtime branch re-checks it.

use vstd::prelude::*;

verus! {

/// Decides whether a build may use the fast, channel-gated realizations.
///
/// The capability counts as present only when the toolchain self-reports the
/// most permissive release channel and the build does not ask for the
/// portable behavior outright. The override always wins, so integrators can
/// exercise the portable bodies even where the fast ones are available.
pub fn capability_available(nightly_channel: bool, force_fallback: bool) -> (r: bool)
    ensures
        r == (nightly_channel && !force_fallback),
{
    nightly_channel && !force_fallback
}

/// How a build terminates the process when the fast abort mechanism is
/// absent.
#[derive(Clone, Copy, PartialEq, Eq, Structural, Debug)]
pub enum AbortFallback {
    /// Read through a null address to induce a hardware fault.
    NullDereference,
    /// Ask the environment to terminate the process directly.
    ProcessTermination,
    /// Raise an unrecoverable program fault.
    ProgramFault,
}

/// The abort fallback a build uses, by preference: a null-address fault where
/// the build configuration offers one, else the environment's direct process
/// termination, else an unrecoverable program fault. Whatever is chosen,
/// the abort primitive never returns.
pub open spec fn abort_fallback_spec(null_fault: bool, process_termination: bool) -> AbortFallback {
    if null_fault {
        AbortFallback::NullDereference
    } else if process_termination {
        AbortFallback::ProcessTermination
    } else {
        AbortFallback::ProgramFault
    }
}

/// Selects the abort fallback for a build from what the build configuration
/// makes available.
pub fn abort_fallback(null_fault: bool, process_termination: bool) -> (r: AbortFallback)
    ensures
        r == abort_fallback_spec(null_fault, process_termination),
{
    if null_fault {
        AbortFallback::NullDereference
    } else if process_termination {
        AbortFallback::ProcessTermination
    } else {
        AbortFallback::ProgramFault
    }
}

} // verus!
