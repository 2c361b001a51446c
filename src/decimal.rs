//! Fixed-point decimal numbers held as a mantissa and a scale.
//!
//! A `Dec` with mantissa `m` and scale `s` stands for the number `m / 10^s`.
//! The arithmetic itself is done by `rust_decimal`; this module converts to
//! and from its `Decimal` and names what each operation returns.
use std::cmp::Ordering;
use vstd::prelude::*;

verus! {

/// Largest magnitude of a mantissa (96 bits).
pub const MAX_MANTISSA: i128 = 0xFFFF_FFFF_FFFF_FFFF_FFFF_FFFF;

/// Largest scale (number of digits after the point).
pub const MAX_SCALE: u32 = 28;

/// A decimal number `mantissa / 10^scale`.
#[derive(Clone, Copy, Debug)]
pub struct Dec {
    mantissa: i128,
    scale: u32,
}

/// The mathematical view of a decimal: its mantissa and its scale.
pub type DecModel = (int, int);

pub open spec fn pow10(n: nat) -> int
    decreases n,
{
    if n == 0 {
        1
    } else {
        10 * pow10((n - 1) as nat)
    }
}

/// `a` and `b` hold mantissas and scales that a `Dec` can hold.
pub open spec fn model_ok(a: DecModel) -> bool {
    -MAX_MANTISSA <= a.0 <= MAX_MANTISSA && 0 <= a.1 <= MAX_SCALE
}

/// The sign of `a - b` as numbers, computed over exact integers:
/// negative when `a < b`, zero when equal, positive when `a > b`.
pub open spec fn cmp_model(a: DecModel, b: DecModel) -> int {
    a.0 * pow10(b.1 as nat) - b.0 * pow10(a.1 as nat)
}

/// Comparing with zero reads the sign of the mantissa.
pub proof fn lemma_cmp_zero(a: DecModel)
    ensures
        cmp_model(a, (0, 0)) == a.0,
        cmp_model((0, 0), a) == -a.0,
{
    assert(pow10(0) == 1);
}

pub open spec fn is_zero_model(a: DecModel) -> bool {
    a.0 == 0
}

pub open spec fn abs_model(a: DecModel) -> DecModel {
    (if a.0 < 0 { -a.0 } else { a.0 }, a.1)
}

/// The larger of the two scales.
pub open spec fn wider_scale(a: DecModel, b: DecModel) -> int {
    if a.1 >= b.1 {
        a.1
    } else {
        b.1
    }
}

/// The mantissa of `a` written at the scale `s`, at least its own.
pub open spec fn at_scale(a: DecModel, s: int) -> int {
    a.0 * pow10((s - a.1) as nat)
}

/// `a + b` exactly, at the wider of the two scales.
pub open spec fn exact_sum(a: DecModel, b: DecModel) -> DecModel {
    (at_scale(a, wider_scale(a, b)) + at_scale(b, wider_scale(a, b)), wider_scale(a, b))
}

/// `a - b` exactly, at the wider of the two scales.
pub open spec fn exact_difference(a: DecModel, b: DecModel) -> DecModel {
    (at_scale(a, wider_scale(a, b)) - at_scale(b, wider_scale(a, b)), wider_scale(a, b))
}

/// Non-zero operands of at most 64 bits whose scales differ by at most 19,
/// with an exact result `r` within 96 bits: the case `rust_decimal` adds and
/// subtracts without rounding.
pub open spec fn aligned_exactly(a: DecModel, b: DecModel, r: DecModel) -> bool {
    &&& a.0 != 0 && b.0 != 0
    &&& -0x1_0000_0000_0000_0000 < a.0 < 0x1_0000_0000_0000_0000
    &&& -0x1_0000_0000_0000_0000 < b.0 < 0x1_0000_0000_0000_0000
    &&& -19 <= a.1 - b.1 <= 19
    &&& -0x1_0000_0000_0000_0000_0000_0000 < r.0 < 0x1_0000_0000_0000_0000_0000_0000
}

/// Non-zero operands of at most 32 bits whose scales add up to at most 28:
/// the case `rust_decimal` multiplies without rounding.
pub open spec fn small_factors(a: DecModel, b: DecModel) -> bool {
    &&& a.0 != 0 && b.0 != 0
    &&& -0x1_0000_0000 < a.0 < 0x1_0000_0000
    &&& -0x1_0000_0000 < b.0 < 0x1_0000_0000
    &&& a.1 + b.1 <= MAX_SCALE
}

/// What `rust_decimal` returns for `a + b`, or `None` where it overflows.
pub uninterp spec fn decimal_sum(a: DecModel, b: DecModel) -> Option<DecModel>;

/// What `rust_decimal` returns for `a - b`, or `None` where it overflows.
pub uninterp spec fn decimal_difference(a: DecModel, b: DecModel) -> Option<DecModel>;

/// What `rust_decimal` returns for `a * b`, or `None` where it overflows.
pub uninterp spec fn decimal_product(a: DecModel, b: DecModel) -> Option<DecModel>;

/// What `rust_decimal` returns for `a / b`, or `None` where `b` is zero or
/// the quotient overflows.
pub uninterp spec fn decimal_quotient(a: DecModel, b: DecModel) -> Option<DecModel>;

/// What `rust_decimal` parses from a text, or `None` where it refuses it.
pub uninterp spec fn decimal_parse(s: Seq<char>) -> Option<DecModel>;

/// How `rust_decimal` writes a decimal.
pub uninterp spec fn decimal_text(a: DecModel) -> Seq<char>;

/// `a + b` on possibly missing operands.
pub open spec fn plus(a: Option<DecModel>, b: Option<DecModel>) -> Option<DecModel> {
    match (a, b) {
        (Some(x), Some(y)) => decimal_sum(x, y),
        _ => None,
    }
}

/// `a - b` on possibly missing operands.
pub open spec fn minus(a: Option<DecModel>, b: Option<DecModel>) -> Option<DecModel> {
    match (a, b) {
        (Some(x), Some(y)) => decimal_difference(x, y),
        _ => None,
    }
}

/// `a * b` on possibly missing operands.
pub open spec fn times(a: Option<DecModel>, b: Option<DecModel>) -> Option<DecModel> {
    match (a, b) {
        (Some(x), Some(y)) => decimal_product(x, y),
        _ => None,
    }
}

/// `a / b` on possibly missing operands.
pub open spec fn over(a: Option<DecModel>, b: Option<DecModel>) -> Option<DecModel> {
    match (a, b) {
        (Some(x), Some(y)) => decimal_quotient(x, y),
        _ => None,
    }
}

/// `|a|` on a possibly missing operand.
pub open spec fn magnitude(a: Option<DecModel>) -> Option<DecModel> {
    match a {
        Some(x) => Some(abs_model(x)),
        None => None,
    }
}

/// The smaller of two decimals; the first where they are equal.
pub open spec fn min_model(a: DecModel, b: DecModel) -> DecModel {
    if cmp_model(b, a) < 0 {
        b
    } else {
        a
    }
}

pub open spec fn opt_view(a: Option<Dec>) -> Option<DecModel> {
    match a {
        Some(d) => Some(d@),
        None => None,
    }
}

impl View for Dec {
    type V = DecModel;

    closed spec fn view(&self) -> DecModel {
        (self.mantissa as int, self.scale as int)
    }
}

impl Dec {
    #[verifier::type_invariant]
    spec fn inv(self) -> bool {
        model_ok(self@)
    }

    /// The decimal `mantissa / 10^scale`, where both are in range.
    pub fn from_parts(mantissa: i128, scale: u32) -> (r: Option<Dec>)
        ensures
            r is Some <==> model_ok((mantissa as int, scale as int)),
            r matches Some(d) ==> d@ == (mantissa as int, scale as int),
    {
        if -MAX_MANTISSA <= mantissa && mantissa <= MAX_MANTISSA && scale <= MAX_SCALE {
            Some(Dec { mantissa, scale })
        } else {
            None
        }
    }

    /// A whole number.
    pub fn from_int(n: i64) -> (r: Dec)
        ensures
            r@ == (n as int, 0int),
    {
        Dec { mantissa: n as i128, scale: 0 }
    }

    pub fn zero() -> (r: Dec)
        ensures
            r@ == (0int, 0int),
    {
        Dec { mantissa: 0, scale: 0 }
    }

    pub fn one() -> (r: Dec)
        ensures
            r@ == (1int, 0int),
    {
        Dec { mantissa: 1, scale: 0 }
    }

    pub fn two() -> (r: Dec)
        ensures
            r@ == (2int, 0int),
    {
        Dec { mantissa: 2, scale: 0 }
    }

    pub fn one_hundred() -> (r: Dec)
        ensures
            r@ == (100int, 0int),
    {
        Dec { mantissa: 100, scale: 0 }
    }

    /// A small fixed-point constant `mantissa / 10^scale`.
    pub fn fixed(mantissa: i64, scale: u32) -> (r: Dec)
        requires
            scale <= MAX_SCALE,
        ensures
            r@ == (mantissa as int, scale as int),
    {
        Dec { mantissa: mantissa as i128, scale }
    }

    pub fn mantissa(&self) -> (r: i128)
        ensures
            r == self@.0,
    {
        self.mantissa
    }

    pub fn scale(&self) -> (r: u32)
        ensures
            r == self@.1,
    {
        self.scale
    }

    pub fn is_zero(&self) -> (r: bool)
        ensures
            r == is_zero_model(self@),
    {
        self.mantissa == 0
    }

    pub fn is_positive(&self) -> (r: bool)
        ensures
            r == (self@.0 > 0),
    {
        self.mantissa > 0
    }

    pub fn abs(&self) -> (r: Dec)
        ensures
            r@ == abs_model(self@),
    {
        proof {
            use_type_invariant(self);
        }
        Dec { mantissa: if self.mantissa < 0 { -self.mantissa } else { self.mantissa }, scale: self.scale }
    }

    /// Text through `rust_decimal`'s parser, which keeps every digit given.
    pub fn from_str_exact(s: &str) -> (r: Option<Dec>)
        ensures
            opt_view(r) == decimal_parse(s@),
    {
        parse_exact(s)
    }

    /// The decimal written out as `rust_decimal` writes it.
    pub fn to_text(&self) -> (r: String)
        ensures
            r@ == decimal_text(self@),
    {
        write_decimal(self)
    }
}

// Each wrapper below rebuilds `rust_decimal::Decimal` values with
// `Decimal::from_i128_with_scale`, which cannot panic here since the type
// invariant keeps the mantissa within 96 bits and the scale within 28, and
// reads results back with `Decimal::mantissa` and `Decimal::scale`, which are
// in the same ranges for every `Decimal`.

/// Relies on `Decimal::checked_add`: a zero operand gives the other one as it
/// is, and small operands are added exactly at the wider scale.
#[verifier::external_body]
pub(crate) fn checked_add(a: &Dec, b: &Dec) -> (r: Option<Dec>)
    ensures
        opt_view(r) == decimal_sum(a@, b@),
        a@.0 == 0 ==> opt_view(r) == Some(b@),
        a@.0 != 0 && b@.0 == 0 ==> opt_view(r) == Some(a@),
        aligned_exactly(a@, b@, exact_sum(a@, b@)) ==> opt_view(r) == Some(exact_sum(a@, b@)),
{
    let x = rust_decimal::Decimal::from_i128_with_scale(a.mantissa, a.scale);
    let y = rust_decimal::Decimal::from_i128_with_scale(b.mantissa, b.scale);
    x.checked_add(y).map(|v| Dec { mantissa: v.mantissa(), scale: v.scale() })
}

/// Relies on `Decimal::checked_sub`: a zero operand gives the other one (the
/// subtrahend negated), and small operands are subtracted exactly at the
/// wider scale.
#[verifier::external_body]
pub(crate) fn checked_sub(a: &Dec, b: &Dec) -> (r: Option<Dec>)
    ensures
        opt_view(r) == decimal_difference(a@, b@),
        a@.0 == 0 ==> opt_view(r) == Some((-b@.0, b@.1)),
        a@.0 != 0 && b@.0 == 0 ==> opt_view(r) == Some(a@),
        aligned_exactly(a@, b@, exact_difference(a@, b@)) ==> opt_view(r) == Some(exact_difference(a@, b@)),
{
    let x = rust_decimal::Decimal::from_i128_with_scale(a.mantissa, a.scale);
    let y = rust_decimal::Decimal::from_i128_with_scale(b.mantissa, b.scale);
    x.checked_sub(y).map(|v| Dec { mantissa: v.mantissa(), scale: v.scale() })
}

/// Relies on `Decimal::checked_mul`: a zero operand gives zero at scale 0,
/// and small factors are multiplied exactly, their scales added.
#[verifier::external_body]
pub(crate) fn checked_mul(a: &Dec, b: &Dec) -> (r: Option<Dec>)
    ensures
        opt_view(r) == decimal_product(a@, b@),
        a@.0 == 0 || b@.0 == 0 ==> opt_view(r) == Some((0int, 0int)),
        small_factors(a@, b@) ==> opt_view(r) == Some((a@.0 * b@.0, a@.1 + b@.1)),
{
    let x = rust_decimal::Decimal::from_i128_with_scale(a.mantissa, a.scale);
    let y = rust_decimal::Decimal::from_i128_with_scale(b.mantissa, b.scale);
    x.checked_mul(y).map(|v| Dec { mantissa: v.mantissa(), scale: v.scale() })
}

/// Relies on `Decimal::checked_div`, which returns `None` for a zero divisor.
#[verifier::external_body]
pub(crate) fn checked_div(a: &Dec, b: &Dec) -> (r: Option<Dec>)
    ensures
        opt_view(r) == decimal_quotient(a@, b@),
        is_zero_model(b@) ==> r is None,
{
    let x = rust_decimal::Decimal::from_i128_with_scale(a.mantissa, a.scale);
    let y = rust_decimal::Decimal::from_i128_with_scale(b.mantissa, b.scale);
    x.checked_div(y).map(|v| Dec { mantissa: v.mantissa(), scale: v.scale() })
}

/// Relies on `Ord for Decimal`, which orders decimals by the numbers they
/// stand for, whatever their scales.
#[verifier::external_body]
pub(crate) fn compare(a: &Dec, b: &Dec) -> (r: Ordering)
    ensures
        (r == Ordering::Less) == (cmp_model(a@, b@) < 0),
        (r == Ordering::Equal) == (cmp_model(a@, b@) == 0),
        (r == Ordering::Greater) == (cmp_model(a@, b@) > 0),
{
    let x = rust_decimal::Decimal::from_i128_with_scale(a.mantissa, a.scale);
    let y = rust_decimal::Decimal::from_i128_with_scale(b.mantissa, b.scale);
    x.cmp(&y)
}

/// Relies on `Decimal::from_str_exact`.
#[verifier::external_body]
fn parse_exact(s: &str) -> (r: Option<Dec>)
    ensures
        opt_view(r) == decimal_parse(s@),
{
    rust_decimal::Decimal::from_str_exact(s).ok().map(|v| Dec { mantissa: v.mantissa(), scale: v.scale() })
}

/// Relies on `Display for Decimal`.
#[verifier::external_body]
fn write_decimal(a: &Dec) -> (r: String)
    ensures
        r@ == decimal_text(a@),
{
    let x = rust_decimal::Decimal::from_i128_with_scale(a.mantissa, a.scale);
    format!("{}", x)
}

/// `a + b`, where both are present and the sum does not overflow.
pub fn add_o(a: Option<Dec>, b: Option<Dec>) -> (r: Option<Dec>)
    ensures
        opt_view(r) == plus(opt_view(a), opt_view(b)),
        a is Some && b is Some && a->0@.0 == 0 ==> opt_view(r) == Some(b->0@),
        a is Some && b is Some && a->0@.0 != 0 && b->0@.0 == 0 ==> opt_view(r) == Some(a->0@),
        a is Some && b is Some && aligned_exactly(a->0@, b->0@, exact_sum(a->0@, b->0@)) ==> opt_view(r) == Some(
            exact_sum(a->0@, b->0@),
        ),
{
    match (a, b) {
        (Some(x), Some(y)) => checked_add(&x, &y),
        _ => None,
    }
}

/// `a - b`, where both are present and the difference does not overflow.
pub fn sub_o(a: Option<Dec>, b: Option<Dec>) -> (r: Option<Dec>)
    ensures
        opt_view(r) == minus(opt_view(a), opt_view(b)),
        a is Some && b is Some && a->0@.0 == 0 ==> opt_view(r) == Some((-b->0@.0, b->0@.1)),
        a is Some && b is Some && a->0@.0 != 0 && b->0@.0 == 0 ==> opt_view(r) == Some(a->0@),
        a is Some && b is Some && aligned_exactly(a->0@, b->0@, exact_difference(a->0@, b->0@)) ==> opt_view(r)
            == Some(exact_difference(a->0@, b->0@)),
{
    match (a, b) {
        (Some(x), Some(y)) => checked_sub(&x, &y),
        _ => None,
    }
}

/// `a * b`, where both are present and the product does not overflow.
pub fn mul_o(a: Option<Dec>, b: Option<Dec>) -> (r: Option<Dec>)
    ensures
        opt_view(r) == times(opt_view(a), opt_view(b)),
        a is Some && b is Some && (a->0@.0 == 0 || b->0@.0 == 0) ==> opt_view(r) == Some((0int, 0int)),
        a is Some && b is Some && small_factors(a->0@, b->0@) ==> opt_view(r) == Some(
            (a->0@.0 * b->0@.0, a->0@.1 + b->0@.1),
        ),
{
    match (a, b) {
        (Some(x), Some(y)) => checked_mul(&x, &y),
        _ => None,
    }
}

/// `a / b`, where both are present, `b` is not zero and the quotient does
/// not overflow.
pub fn div_o(a: Option<Dec>, b: Option<Dec>) -> (r: Option<Dec>)
    ensures
        opt_view(r) == over(opt_view(a), opt_view(b)),
{
    match (a, b) {
        (Some(x), Some(y)) => checked_div(&x, &y),
        _ => None,
    }
}

/// `|a|` where `a` is present.
pub fn abs_o(a: Option<Dec>) -> (r: Option<Dec>)
    ensures
        opt_view(r) == magnitude(opt_view(a)),
{
    match a {
        Some(x) => Some(x.abs()),
        None => None,
    }
}

/// `a < b` as numbers.
pub fn lt(a: &Dec, b: &Dec) -> (r: bool)
    ensures
        r == (cmp_model(a@, b@) < 0),
{
    match compare(a, b) {
        Ordering::Less => true,
        _ => false,
    }
}

/// `a <= b` as numbers.
pub fn le(a: &Dec, b: &Dec) -> (r: bool)
    ensures
        r == (cmp_model(a@, b@) <= 0),
{
    match compare(a, b) {
        Ordering::Greater => false,
        _ => true,
    }
}

/// `a > b` as numbers.
pub fn gt(a: &Dec, b: &Dec) -> (r: bool)
    ensures
        r == (cmp_model(a@, b@) > 0),
{
    match compare(a, b) {
        Ordering::Greater => true,
        _ => false,
    }
}

/// `a >= b` as numbers.
pub fn ge(a: &Dec, b: &Dec) -> (r: bool)
    ensures
        r == (cmp_model(a@, b@) >= 0),
{
    match compare(a, b) {
        Ordering::Less => false,
        _ => true,
    }
}

/// The smaller of two decimals, the first where they are equal, as
/// `Ord::min` chooses.
pub fn min(a: Dec, b: Dec) -> (r: Dec)
    ensures
        r@ == min_model(a@, b@),
{
    if lt(&b, &a) {
        b
    } else {
        a
    }
}

} // verus!
