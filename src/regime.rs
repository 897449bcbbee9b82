//! Classification of a parameter triple (a, b, z) into the regime that
//! decides how M(a, b, z) is evaluated.
use vstd::prelude::*;

verus! {

/// The facts about (a, b, z) that the choice of regime reads.
///
/// Each field is a predicate on the three doubles, computed by the caller.
#[derive(Clone, Copy, Debug, PartialEq, Eq)]
pub struct Guards {
    /// a, b or z is not a number.
    pub any_nan: bool,
    /// b is an integer and b <= 0.
    pub b_nonpos_int: bool,
    /// a is a negative integer and b <= a.
    pub a_neg_int_not_below_b: bool,
    /// a == 0.
    pub a_zero: bool,
    /// z == 0.
    pub z_zero: bool,
    /// a == -1.
    pub a_minus_one: bool,
    /// a == b.
    pub a_eq_b: bool,
    /// a - b == 1.
    pub a_minus_b_one: bool,
    /// a == 1 and b == 2.
    pub a_one_b_two: bool,
    /// a is an integer and a <= 0.
    pub a_nonpos_int: bool,
    /// b > 0 and (|a| + 1) * |z| < 0.9 * b: the series converges fast.
    pub fast_region: bool,
}

/// How M(a, b, z) is evaluated for a given parameter triple.
#[derive(Clone, Copy, Debug, PartialEq, Eq)]
pub enum Regime {
    /// A parameter is not a number: the result is not a number.
    NotANumber,
    /// b is a non-positive integer with no cancelling a: the result is +infinity.
    Pole,
    /// b is a non-positive integer and a a negative integer with b <= a: the
    /// series is a polynomial with a removable 0/0 term; convergence-tracked sum.
    PolynomialViaB,
    /// a == 0 or z == 0: the result is 1.
    Unity,
    /// a == -1: the result is 1 - z/b.
    Linear,
    /// a == b: the result is e^z.
    Exponential,
    /// a - b == 1: the result is (1 + z/b) e^z.
    ShiftedExponential,
    /// a == 1 and b == 2: the result is (e^z - 1)/z.
    ExpRatio,
    /// a is a non-positive integer: the series is a polynomial of degree -a;
    /// convergence-tracked sum.
    PolynomialViaA,
    /// The series converges fast: plain capped sum.
    FastSeries,
    /// No closed form and no fast convergence: plain capped sum all the same.
    FallbackSeries,
}

/// Facts that hold of the guards of every real triple (a, b, z).
pub open spec fn guards_wf(g: Guards) -> bool {
    &&& g.a_neg_int_not_below_b ==> g.b_nonpos_int && g.a_nonpos_int
    &&& g.a_zero ==> g.a_nonpos_int && !g.a_minus_one
    &&& g.a_minus_one ==> g.a_nonpos_int
    &&& g.a_eq_b && g.b_nonpos_int ==> g.a_nonpos_int
    &&& g.a_eq_b && g.a_nonpos_int ==> g.b_nonpos_int
    &&& g.a_minus_b_one && g.a_nonpos_int ==> g.b_nonpos_int
    &&& g.a_one_b_two ==> !g.b_nonpos_int && !g.a_nonpos_int && !g.a_eq_b
        && !g.a_minus_b_one
}

/// The regime: the first guard that holds, in this order.
pub open spec fn regime_of(g: Guards) -> Regime {
    if g.any_nan {
        Regime::NotANumber
    } else if g.b_nonpos_int {
        if g.a_neg_int_not_below_b {
            Regime::PolynomialViaB
        } else {
            Regime::Pole
        }
    } else if g.a_zero || g.z_zero {
        Regime::Unity
    } else if g.a_minus_one {
        Regime::Linear
    } else if g.a_eq_b {
        Regime::Exponential
    } else if g.a_minus_b_one {
        Regime::ShiftedExponential
    } else if g.a_one_b_two {
        Regime::ExpRatio
    } else if g.a_nonpos_int {
        Regime::PolynomialViaA
    } else if g.fast_region {
        Regime::FastSeries
    } else {
        Regime::FallbackSeries
    }
}

/// Picks the regime of a parameter triple from its guards.
pub fn classify(g: &Guards) -> (r: Regime)
    ensures
        r == regime_of(*g),
{
    if g.any_nan {
        return Regime::NotANumber;
    }
    if g.b_nonpos_int {
        if g.a_neg_int_not_below_b {
            Regime::PolynomialViaB
        } else {
            Regime::Pole
        }
    } else if g.a_zero || g.z_zero {
        Regime::Unity
    } else if g.a_minus_one {
        Regime::Linear
    } else if g.a_eq_b {
        Regime::Exponential
    } else if g.a_minus_b_one {
        Regime::ShiftedExponential
    } else if g.a_one_b_two {
        Regime::ExpRatio
    } else if g.a_nonpos_int {
        Regime::PolynomialViaA
    } else if g.fast_region {
        Regime::FastSeries
    } else {
        Regime::FallbackSeries
    }
}

/// At z == 0 the result is 1: the triple falls in the unity regime unless a
/// parameter is not a number or b is a non-positive integer.
pub proof fn lemma_zero_argument_is_unity(g: Guards)
    requires
        !g.any_nan,
        !g.b_nonpos_int,
        g.z_zero,
    ensures
        regime_of(g) == Regime::Unity,
{
}

/// For a == 0 the result is 1: the triple falls in the unity regime unless a
/// parameter is not a number or b is a non-positive integer.
pub proof fn lemma_zero_numerator_is_unity(g: Guards)
    requires
        !g.any_nan,
        !g.b_nonpos_int,
        g.a_zero,
    ensures
        regime_of(g) == Regime::Unity,
{
}

/// For a == b, with a not a non-positive integer, the result is e^z: the
/// exponential regime, or the unity regime where z == 0 (and e^0 == 1).
pub proof fn lemma_equal_parameters_are_exponential(g: Guards)
    requires
        guards_wf(g),
        !g.any_nan,
        !g.a_nonpos_int,
        g.a_eq_b,
    ensures
        regime_of(g) == (if g.z_zero { Regime::Unity } else { Regime::Exponential }),
{
}

/// For a == 1 and b == 2 the result is (e^z - 1)/z: that closed form where
/// z != 0, and the unity regime, its continuous extension, where z == 0.
pub proof fn lemma_one_two_is_exp_ratio(g: Guards)
    requires
        guards_wf(g),
        !g.any_nan,
        g.a_one_b_two,
    ensures
        regime_of(g) == (if g.z_zero { Regime::Unity } else { Regime::ExpRatio }),
{
}

/// For a == -1 the result is 1 - z/b: the linear regime, or the unity regime
/// where z == 0 (and 1 - 0/b == 1), unless a parameter is not a number or b is
/// a non-positive integer.
pub proof fn lemma_minus_one_is_linear(g: Guards)
    requires
        guards_wf(g),
        !g.any_nan,
        !g.b_nonpos_int,
        g.a_minus_one,
    ensures
        regime_of(g) == (if g.z_zero { Regime::Unity } else { Regime::Linear }),
{
}

/// For b a non-positive integer, with a not a negative integer at least b,
/// the result is +infinity: the pole regime, unless a or z is not a number.
pub proof fn lemma_uncancelled_pole(g: Guards)
    requires
        !g.any_nan,
        g.b_nonpos_int,
        !g.a_neg_int_not_below_b,
    ensures
        regime_of(g) == Regime::Pole,
{
}

/// For a a non-positive integer the series is a polynomial in z: unless a
/// parameter is not a number or b is an uncancelled pole, the triple falls in
/// a regime that evaluates a polynomial (the constant 1, 1 - z/b, or a
/// convergence-tracked sum).
pub proof fn lemma_nonpositive_integer_numerator_is_polynomial(g: Guards)
    requires
        guards_wf(g),
        !g.any_nan,
        g.a_nonpos_int,
        g.b_nonpos_int ==> g.a_neg_int_not_below_b,
    ensures
        regime_of(g) == Regime::Unity || regime_of(g) == Regime::Linear
            || regime_of(g) == Regime::PolynomialViaA
            || regime_of(g) == Regime::PolynomialViaB,
{
}

} // verus!
