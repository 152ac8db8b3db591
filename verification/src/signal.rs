//! Signals exchanged between pipeline stages, and the termination policy a
//! mount point uses to choose the signal it reports to its enclosing chain.

use vstd::prelude::*;

verus! {

/// Result of handling a request: either let the next stage of the enclosing
/// chain run, or halt the chain because the response is considered final.
#[derive(Clone, Copy, Debug, PartialEq, Eq, Structural)]
pub enum PipelineSignal {
    /// Let the next handler in the chain run.
    Continue,
    /// Halt the chain; the response is final.
    Stop,
}

/// Rule determining what signal a mount point reports to its enclosing chain
/// after delegating to its nested pipeline.  Fixed at construction.
#[derive(Clone, Copy, Debug, PartialEq, Eq, Structural)]
pub enum TerminationPolicy {
    /// After delegating, always stop further processing of the chain.
    AlwaysStop,
    /// After delegating, always continue to sibling handlers.
    AlwaysContinue,
    /// Propagate whatever signal the nested pipeline returned.
    PassThroughChildSignal,
}

/// The signal a mount point reports, given its termination policy and the
/// signal its nested pipeline returned.
pub open spec fn signal_for(policy: TerminationPolicy, child: PipelineSignal) -> PipelineSignal {
    match policy {
        TerminationPolicy::AlwaysStop => PipelineSignal::Stop,
        TerminationPolicy::AlwaysContinue => PipelineSignal::Continue,
        TerminationPolicy::PassThroughChildSignal => child,
    }
}

/// Executable counterpart of [`signal_for`].
pub fn resolve_signal(policy: TerminationPolicy, child: PipelineSignal) -> (s: PipelineSignal)
    ensures
        s == signal_for(policy, child),
{
    match policy {
        TerminationPolicy::AlwaysStop => PipelineSignal::Stop,
        TerminationPolicy::AlwaysContinue => PipelineSignal::Continue,
        TerminationPolicy::PassThroughChildSignal => child,
    }
}

/// Law: the reported signal is determined by the policy alone where the
/// policy is terminal, and equals the nested pipeline's signal exactly where
/// the policy passes it through.  In particular, a nested pipeline returning
/// `Stop` yields `Stop` under `AlwaysStop`, `Continue` under
/// `AlwaysContinue`, and `Stop` under `PassThroughChildSignal`; a nested
/// pipeline returning `Continue` yields `Stop`, `Continue` and `Continue`
/// respectively.
pub proof fn lemma_termination_policy(child: PipelineSignal)
    ensures
        signal_for(TerminationPolicy::AlwaysStop, child) == PipelineSignal::Stop,
        signal_for(TerminationPolicy::AlwaysContinue, child) == PipelineSignal::Continue,
        signal_for(TerminationPolicy::PassThroughChildSignal, child) == child,
{
}

} // verus!
