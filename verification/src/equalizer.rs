//! Mode control and symbol-history bookkeeping for the decision-feedback
//! equalizer.
//!
//! The filter arithmetic of the equalizer is floating-point and lives
//! outside the verified library.  What is verified here is the discrete
//! part of its state machine: the blind-to-decision-directed mode switch
//! and the ring of past symbol decisions that drives the feedback filter.

use vstd::prelude::*;

verus! {

/// Operating mode of the decision-feedback equalizer.
#[derive(Debug, Clone, Copy, PartialEq, Eq, Structural)]
pub enum EqMode {
    /// Constant-modulus algorithm: blind acquisition, no training needed.
    CMA,
    /// Decision-directed least-mean-squares: tracking after convergence.
    DD,
}

/// Decide whether the equalizer may leave blind acquisition for
/// decision-directed tracking.
///
/// The switch is allowed exactly when enough symbols have been processed
/// for the running statistics to mean anything, the constant-modulus
/// dispersion estimate has fallen below its configured threshold, and the
/// decision-directed error estimate has fallen below one half.  The two
/// threshold comparisons are made by the caller on its running averages and
/// handed in as booleans.
pub fn should_switch_to_dd(
    total_symbols: u64,
    cma_min_symbols: usize,
    cma_cost_below_threshold: bool,
    dd_error_below_half: bool,
) -> (r: bool)
    ensures
        r == (total_symbols >= cma_min_symbols as u64 && cma_cost_below_threshold
            && dd_error_below_half),
{
    if total_symbols < cma_min_symbols as u64 {
        return false;
    }
    cma_cost_below_threshold && dd_error_below_half
}

/// Push a fresh symbol decision into the feedback history ring.
///
/// The newest decision takes index 0 and every older decision moves one
/// place toward the end; the oldest falls off.  The length of the history
/// never changes.
pub fn shift_in_decision(history: &mut Vec<u8>, decision: u8)
    requires
        old(history).len() > 0,
    ensures
        final(history)@ == seq![decision] + old(history)@.subrange(
            0,
            old(history)@.len() - 1,
        ),
        final(history).len() == old(history).len(),
{
    let len = history.len();
    let mut i: usize = len - 1;
    while i > 0
        invariant
            0 <= i < len,
            history.len() == len,
            forall|k: int| 0 <= k <= i ==> history@[k] == old(history)@[k],
            forall|k: int| i < k < len ==> history@[k] == old(history)@[k - 1],
        decreases i,
    {
        let prev = history[i - 1];
        history[i] = prev;
        i = i - 1;
    }
    history[0] = decision;
    assert(history@ =~= seq![decision] + old(history)@.subrange(0, old(history)@.len() - 1));
}

} // verus!
