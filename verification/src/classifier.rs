//! Classification of an integer by divisibility, in the fixed order 4, 3, 2.

use vstd::prelude::*;

verus! {

/// Outcome of a classification: the first divisor, in the order 4, 3, 2,
/// that divides the number, or that none of the three does.
#[derive(Clone, Copy, Debug, PartialEq, Eq, Hash, Structural)]
pub enum Label {
    /// The number is a multiple of 4.
    DivisibleBy4,
    /// The number is a multiple of 3, but not of 4.
    DivisibleBy3,
    /// The number is a multiple of 2, but neither of 4 nor of 3.
    DivisibleBy2,
    /// The number is a multiple of none of 4, 3 and 2.
    NotDivisible,
}

/// Remainder of the division of `n` by `d` that rounds the quotient toward
/// zero. It has the sign of `n` (or is zero), and its magnitude is below `d`.
pub open spec fn remainder(n: int, d: int) -> int
    recommends
        d > 0,
{
    if n >= 0 {
        n % d
    } else {
        -((-n) % d)
    }
}

/// The label of `n`: the divisors are tried in the order 4, 3, 2, and the
/// first one that leaves no remainder decides.
pub open spec fn label_of(n: int) -> Label {
    if remainder(n, 4) == 0 {
        Label::DivisibleBy4
    } else if remainder(n, 3) == 0 {
        Label::DivisibleBy3
    } else if remainder(n, 2) == 0 {
        Label::DivisibleBy2
    } else {
        Label::NotDivisible
    }
}

/// Classifies `n`. Every integer has a label: zero and the negative numbers
/// are classified like any other, so `0` and `-4` are both `DivisibleBy4`.
///
/// The first clause gives the result as a function of `n`; the other four
/// spell that function out, one for each label.
pub fn classify(n: i64) -> (label: Label)
    ensures
        label == label_of(n as int),
        remainder(n as int, 4) == 0 ==> label == Label::DivisibleBy4,
        remainder(n as int, 4) != 0 && remainder(n as int, 3) == 0
            ==> label == Label::DivisibleBy3,
        remainder(n as int, 4) != 0 && remainder(n as int, 3) != 0 && remainder(n as int, 2) == 0
            ==> label == Label::DivisibleBy2,
        remainder(n as int, 4) != 0 && remainder(n as int, 3) != 0 && remainder(n as int, 2) != 0
            ==> label == Label::NotDivisible,
{
    if n % 4 == 0 {
        Label::DivisibleBy4
    } else if n % 3 == 0 {
        Label::DivisibleBy3
    } else if n % 2 == 0 {
        Label::DivisibleBy2
    } else {
        Label::NotDivisible
    }
}

/// `classify` keeps nothing between calls: what it returns is `label_of` of
/// its argument, so two calls on equal numbers return equal labels.
pub proof fn lemma_classify_repeatable(n: int, m: int, first: Label, second: Label)
    requires
        n == m,
        first == label_of(n),
        second == label_of(m),
    ensures
        first == second,
{
}

} // verus!
