//! Portable realizations of low-level hint and bit primitives.
//!
//! Each operation here is the portable counterpart of a compiler intrinsic:
//! the body that remains correct on any toolchain, with the operation's
//! contract stated and machine-checked. The pieces that need inline assembly
//! or raw pointers (debugger traps, prefetches, raw stores) cannot be given
//! bodies here; only their build-time selection logic lives in this crate.

pub mod arch;
pub mod disjoint_bitor;
pub mod dispatch;

use vstd::prelude::*;

pub use disjoint_bitor::DisjointBitOr;

verus! {

/// Combines two operands that share no set bits; equivalent to calling
/// [`DisjointBitOr::disjoint_bitor`] on the first.
pub fn disjoint_bitor<T: DisjointBitOr>(a: T, b: T) -> (r: T)
    requires
        a.disjoint(b),
    ensures
        r == a.bitor_value(b),
{
    a.disjoint_bitor(b)
}

/// The assert-then-compute form of [`disjoint_bitor`]: checks the
/// precondition at run time and combines the operands only when it holds.
/// Returns `Some` of the bitwise or exactly when the operands share no set
/// bits, and `None` exactly when they overlap — a violation is flagged,
/// never silently turned into a wrong value.
pub fn checked_disjoint_bitor<T: DisjointBitOr>(a: T, b: T) -> (r: Option<T>)
    ensures
        r == (if a.disjoint(b) {
            Some(a.bitor_value(b))
        } else {
            None::<T>
        }),
{
    if a.is_disjoint(b) {
        Some(a.disjoint_bitor(b))
    } else {
        None
    }
}

/// Hints that the current code path is rarely taken. Purely advisory: it
/// returns nothing, changes nothing, and never panics.
pub fn cold_path() {
}

/// Hints that `b` is usually true. Returns its argument unchanged.
pub fn likely(b: bool) -> (r: bool)
    ensures
        r == b,
{
    b
}

/// Hints that `b` is usually false. Returns its argument unchanged.
pub fn unlikely(b: bool) -> (r: bool)
    ensures
        r == b,
{
    b
}

/// Returns `true_val` when `b` holds and `false_val` otherwise, with no other
/// effect. The contract binds only the chosen value, never the instruction
/// shape a compiler picks for the selection.
pub fn select_unpredictable<T>(b: bool, true_val: T, false_val: T) -> (r: T)
    ensures
        r == (if b {
            true_val
        } else {
            false_val
        }),
{
    if b {
        true_val
    } else {
        false_val
    }
}

/// Compares two byte views of equal length for bit-pattern equality,
/// short-circuiting on the first mismatch. This is the portable core of raw
/// equality on same-type values: any custom equality the type defines is
/// ignored, only the storage bytes count. The counted index (rather than an
/// iterator) keeps the body usable where iteration is not.
pub fn raw_eq_bytes(a: &[u8], b: &[u8]) -> (r: bool)
    requires
        a@.len() == b@.len(),
    ensures
        r <==> a@ == b@,
{
    let n = a.len();
    let mut i: usize = 0;
    while i < n
        invariant
            n == a@.len(),
            a@.len() == b@.len(),
            i <= n,
            forall|j: int| 0 <= j < i ==> a@[j] == b@[j],
        decreases n - i,
    {
        if a[i] != b[i] {
            return false;
        }
        i += 1;
    }
    proof {
        assert(a@ =~= b@);
    }
    true
}

} // verus!
