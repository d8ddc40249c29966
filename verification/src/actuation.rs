//! The actuation mapping: the policy that turns the controller's unbounded
//! output into a thrust fraction in `[0, 1]`.
//!
//! Two policies exist.  The plain one clamps the output and feeds it through
//! unchanged.  The hover-linearized one first clamps the output to
//! `[-1, 1]`, then maps it piecewise-linearly around a configured hover
//! fraction `h`: output `o < 0` yields `h * (-o)` and `o >= 0` yields
//! `(1-h) * o`.  This is a linearization policy around the hover point,
//! not a physical law, and it is behaviorally significant for stability.

use vstd::prelude::*;
use crate::fixed::{
    clamp, clamped, fmul, fp_mul, lemma_fmul_scale_exact, lemma_fmul_unit_range, SCALE,
};

verus! {

/// How raw controller output becomes a thrust fraction.
#[derive(Clone, Copy, Debug, PartialEq, Eq, Structural)]
pub enum ActuationPolicy {
    /// Clamp the output to `[0, 1]` and use it directly as the fraction.
    IdentityClamp,
    /// Clamp the output to `[-1, 1]`, then map it piecewise-linearly around
    /// the hover fraction.
    HoverLinear { hover: i64 },
}

/// A policy is well formed when its hover fraction lies in `[0, 1]`.
pub open spec fn policy_wf(p: ActuationPolicy) -> bool {
    match p {
        ActuationPolicy::IdentityClamp => true,
        ActuationPolicy::HoverLinear { hover } => 0 <= hover <= SCALE,
    }
}

/// The fraction a policy commands for raw controller output `o`.
pub open spec fn actuation_fraction(p: ActuationPolicy, o: int) -> int {
    match p {
        ActuationPolicy::IdentityClamp => clamped(o, 0, SCALE as int),
        ActuationPolicy::HoverLinear { hover } => {
            let c = clamped(o, -(SCALE as int), SCALE as int);
            if c < 0 {
                fmul(hover as int, -c)
            } else {
                fmul(SCALE - hover, c)
            }
        },
    }
}

impl ActuationPolicy {
    /// Map raw controller output to the commanded thrust fraction, which
    /// always lands in `[0, 1]`.
    pub fn apply(&self, output: i64) -> (r: i64)
        requires
            policy_wf(*self),
        ensures
            r == actuation_fraction(*self, output as int),
            0 <= r <= SCALE,
    {
        match self {
            ActuationPolicy::IdentityClamp => clamp(output, 0, SCALE),
            ActuationPolicy::HoverLinear { hover } => {
                let c = clamp(output, -SCALE, SCALE);
                if c < 0 {
                    proof {
                        lemma_fmul_unit_range(*hover as int, -c as int);
                    }
                    fp_mul(*hover, -c)
                } else {
                    proof {
                        lemma_fmul_unit_range(SCALE - *hover as int, c as int);
                    }
                    fp_mul(SCALE - *hover, c)
                }
            },
        }
    }
}

/// The hover-linearized map is continuous at zero: both of its branch
/// formulas yield fraction 0 at output 0, for any hover fraction, and so
/// does the plain clamp.
pub proof fn lemma_actuation_zero(p: ActuationPolicy)
    requires
        policy_wf(p),
    ensures
        actuation_fraction(p, 0) == 0,
        p matches ActuationPolicy::HoverLinear { hover } ==> fmul(hover as int, 0) == 0
            && fmul(SCALE - hover, 0) == 0,
{
}

/// The boundary values of the hover-linearized map: full positive output
/// commands `1 - h`, full negative output commands `h`.
pub proof fn lemma_actuation_boundary(hover: i64)
    requires
        0 <= hover <= SCALE,
    ensures
        actuation_fraction(ActuationPolicy::HoverLinear { hover }, SCALE as int)
            == SCALE - hover,
        actuation_fraction(ActuationPolicy::HoverLinear { hover }, -(SCALE as int))
            == hover as int,
{
    lemma_fmul_scale_exact(SCALE - hover);
    lemma_fmul_scale_exact(hover as int);
}

} // verus!
