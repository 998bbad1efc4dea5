//! The compute path's result check: scan the per-element comparison outcomes
//! and report the first mismatch, if any.
//!
//! The driver reads the three buffers back after the blocking wait, compares
//! each output element against the sum of the matching inputs within the
//! allowed tolerance, and hands the per-element outcomes here as plain
//! booleans; this logic decides what the check reports.

use vstd::prelude::*;

verus! {

/// Every element matched its expected value.
pub open spec fn all_ok(checks: Seq<bool>) -> bool {
    forall|i: int| 0 <= i < checks.len() ==> checks[i]
}

/// The index of the first element that failed its comparison, or `None` when
/// every element matched. The scan stops at the first failure: everything
/// before the reported index matched.
pub fn first_mismatch(checks: &Vec<bool>) -> (r: Option<usize>)
    ensures
        r is None <==> all_ok(checks@),
        r matches Some(i) ==> i < checks@.len() && !checks@[i as int] && (forall|j: int|
            0 <= j < i ==> checks@[j]),
{
    let mut i: usize = 0;
    while i < checks.len()
        invariant
            i <= checks@.len(),
            forall|j: int| 0 <= j < i ==> checks@[j],
        decreases checks@.len() - i,
    {
        if !checks[i] {
            return Some(i);
        }
        i += 1;
    }
    None
}

/// The aggregate verdict the program prints: success exactly when no element
/// mismatched.
pub fn verification_passed(checks: &Vec<bool>) -> (ok: bool)
    ensures
        ok == all_ok(checks@),
{
    let r = first_mismatch(checks);
    r.is_none()
}

} // verus!
