//! Disjoint bitwise or: combining two values that share no set bits.
//!
//! Under that precondition the bitwise or of two integers coincides with
//! their arithmetic sum, so a compiler may lower the operation either way.
//! Here the precondition is not a hazard taken on faith but a `requires`
//! clause, discharged once and for all at every verified call site.

use vstd::prelude::*;

verus! {

/// An integer or boolean type whose values can be combined by bitwise or
/// under the guarantee that no set bit occurs in both operands.
pub trait DisjointBitOr: Copy + 'static {
    /// Holds when the two operands share no set bits.
    spec fn disjoint(self, other: Self) -> bool;

    /// The bitwise or of the two operands.
    spec fn bitor_value(self, other: Self) -> Self;

    /// Decides at run time whether the two operands share no set bits: the
    /// enforced form of the precondition, for callers that cannot establish
    /// it ahead of the call.
    fn is_disjoint(self, other: Self) -> (r: bool)
        ensures
            r == self.disjoint(other),
    ;

    /// Combines two operands that share no set bits.
    ///
    /// The precondition is the caller's obligation; it is never silently
    /// corrected, and a call that cannot establish it does not verify.
    fn disjoint_bitor(self, other: Self) -> (r: Self)
        requires
            self.disjoint(other),
        ensures
            r == self.bitor_value(other),
    ;
}

impl DisjointBitOr for bool {
    open spec fn disjoint(self, other: bool) -> bool {
        !(self && other)
    }

    open spec fn bitor_value(self, other: bool) -> bool {
        self || other
    }

    fn is_disjoint(self, other: bool) -> (r: bool) {
        !(self && other)
    }

    fn disjoint_bitor(self, other: bool) -> (r: bool) {
        self || other
    }
}

impl DisjointBitOr for u8 {
    open spec fn disjoint(self, other: u8) -> bool {
        self & other == 0
    }

    open spec fn bitor_value(self, other: u8) -> u8 {
        self | other
    }

    fn is_disjoint(self, other: u8) -> (r: bool) {
        self & other == 0
    }

    fn disjoint_bitor(self, other: u8) -> (r: u8) {
        self | other
    }
}

impl DisjointBitOr for i8 {
    open spec fn disjoint(self, other: i8) -> bool {
        self & other == 0
    }

    open spec fn bitor_value(self, other: i8) -> i8 {
        self | other
    }

    fn is_disjoint(self, other: i8) -> (r: bool) {
        self & other == 0
    }

    fn disjoint_bitor(self, other: i8) -> (r: i8) {
        self | other
    }
}

/// When two `i8` values share no set bits, their bitwise or equals their
/// arithmetic sum, which therefore fits the type.
pub proof fn lemma_disjoint_bitor_is_add_i8(a: i8, b: i8)
    requires
        a & b == 0,
    ensures
        a.bitor_value(b) == a + b,
{
    assert(a | b == a + b) by (bit_vector)
        requires
            a & b == 0,
    ;
}

/// When two `u8` values share no set bits, their bitwise or equals their
/// arithmetic sum, which therefore fits the type.
pub proof fn lemma_disjoint_bitor_is_add_u8(a: u8, b: u8)
    requires
        a & b == 0,
    ensures
        a.bitor_value(b) == a + b,
{
    assert(a | b == a + b) by (bit_vector)
        requires
            a & b == 0,
    ;
}

impl DisjointBitOr for i16 {
    open spec fn disjoint(self, other: i16) -> bool {
        self & other == 0
    }

    open spec fn bitor_value(self, other: i16) -> i16 {
        self | other
    }

    fn is_disjoint(self, other: i16) -> (r: bool) {
        self & other == 0
    }

    fn disjoint_bitor(self, other: i16) -> (r: i16) {
        self | other
    }
}

/// When two `i16` values share no set bits, their bitwise or equals their
/// arithmetic sum, which therefore fits the type.
pub proof fn lemma_disjoint_bitor_is_add_i16(a: i16, b: i16)
    requires
        a & b == 0,
    ensures
        a.bitor_value(b) == a + b,
{
    assert(a | b == a + b) by (bit_vector)
        requires
            a & b == 0,
    ;
}

impl DisjointBitOr for u16 {
    open spec fn disjoint(self, other: u16) -> bool {
        self & other == 0
    }

    open spec fn bitor_value(self, other: u16) -> u16 {
        self | other
    }

    fn is_disjoint(self, other: u16) -> (r: bool) {
        self & other == 0
    }

    fn disjoint_bitor(self, other: u16) -> (r: u16) {
        self | other
    }
}

/// When two `u16` values share no set bits, their bitwise or equals their
/// arithmetic sum, which therefore fits the type.
pub proof fn lemma_disjoint_bitor_is_add_u16(a: u16, b: u16)
    requires
        a & b == 0,
    ensures
        a.bitor_value(b) == a + b,
{
    assert(a | b == a + b) by (bit_vector)
        requires
            a & b == 0,
    ;
}

impl DisjointBitOr for i32 {
    open spec fn disjoint(self, other: i32) -> bool {
        self & other == 0
    }

    open spec fn bitor_value(self, other: i32) -> i32 {
        self | other
    }

    fn is_disjoint(self, other: i32) -> (r: bool) {
        self & other == 0
    }

    fn disjoint_bitor(self, other: i32) -> (r: i32) {
        self | other
    }
}

/// When two `i32` values share no set bits, their bitwise or equals their
/// arithmetic sum, which therefore fits the type.
pub proof fn lemma_disjoint_bitor_is_add_i32(a: i32, b: i32)
    requires
        a & b == 0,
    ensures
        a.bitor_value(b) == a + b,
{
    assert(a | b == a + b) by (bit_vector)
        requires
            a & b == 0,
    ;
}

impl DisjointBitOr for u32 {
    open spec fn disjoint(self, other: u32) -> bool {
        self & other == 0
    }

    open spec fn bitor_value(self, other: u32) -> u32 {
        self | other
    }

    fn is_disjoint(self, other: u32) -> (r: bool) {
        self & other == 0
    }

    fn disjoint_bitor(self, other: u32) -> (r: u32) {
        self | other
    }
}

/// When two `u32` values share no set bits, their bitwise or equals their
/// arithmetic sum, which therefore fits the type.
pub proof fn lemma_disjoint_bitor_is_add_u32(a: u32, b: u32)
    requires
        a & b == 0,
    ensures
        a.bitor_value(b) == a + b,
{
    assert(a | b == a + b) by (bit_vector)
        requires
            a & b == 0,
    ;
}

impl DisjointBitOr for i64 {
    open spec fn disjoint(self, other: i64) -> bool {
        self & other == 0
    }

    open spec fn bitor_value(self, other: i64) -> i64 {
        self | other
    }

    fn is_disjoint(self, other: i64) -> (r: bool) {
        self & other == 0
    }

    fn disjoint_bitor(self, other: i64) -> (r: i64) {
        self | other
    }
}

/// When two `i64` values share no set bits, their bitwise or equals their
/// arithmetic sum, which therefore fits the type.
pub proof fn lemma_disjoint_bitor_is_add_i64(a: i64, b: i64)
    requires
        a & b == 0,
    ensures
        a.bitor_value(b) == a + b,
{
    assert(a | b == a + b) by (bit_vector)
        requires
            a & b == 0,
    ;
}

impl DisjointBitOr for u64 {
    open spec fn disjoint(self, other: u64) -> bool {
        self & other == 0
    }

    open spec fn bitor_value(self, other: u64) -> u64 {
        self | other
    }

    fn is_disjoint(self, other: u64) -> (r: bool) {
        self & other == 0
    }

    fn disjoint_bitor(self, other: u64) -> (r: u64) {
        self | other
    }
}

/// When two `u64` values share no set bits, their bitwise or equals their
/// arithmetic sum, which therefore fits the type.
pub proof fn lemma_disjoint_bitor_is_add_u64(a: u64, b: u64)
    requires
        a & b == 0,
    ensures
        a.bitor_value(b) == a + b,
{
    assert(a | b == a + b) by (bit_vector)
        requires
            a & b == 0,
    ;
}

impl DisjointBitOr for i128 {
    open spec fn disjoint(self, other: i128) -> bool {
        self & other == 0
    }

    open spec fn bitor_value(self, other: i128) -> i128 {
        self | other
    }

    fn is_disjoint(self, other: i128) -> (r: bool) {
        self & other == 0
    }

    fn disjoint_bitor(self, other: i128) -> (r: i128) {
        self | other
    }
}

/// When two `i128` values share no set bits, their bitwise or equals their
/// arithmetic sum, which therefore fits the type.
pub proof fn lemma_disjoint_bitor_is_add_i128(a: i128, b: i128)
    requires
        a & b == 0,
    ensures
        a.bitor_value(b) == a + b,
{
    assert(a | b == a + b) by (bit_vector)
        requires
            a & b == 0,
    ;
}

impl DisjointBitOr for u128 {
    open spec fn disjoint(self, other: u128) -> bool {
        self & other == 0
    }

    open spec fn bitor_value(self, other: u128) -> u128 {
        self | other
    }

    fn is_disjoint(self, other: u128) -> (r: bool) {
        self & other == 0
    }

    fn disjoint_bitor(self, other: u128) -> (r: u128) {
        self | other
    }
}

/// When two `u128` values share no set bits, their bitwise or equals their
/// arithmetic sum, which therefore fits the type.
pub proof fn lemma_disjoint_bitor_is_add_u128(a: u128, b: u128)
    requires
        a & b == 0,
    ensures
        a.bitor_value(b) == a + b,
{
    assert(a | b == a + b) by (bit_vector)
        requires
            a & b == 0,
    ;
}

} // verus!
