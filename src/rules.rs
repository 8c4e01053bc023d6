use vstd::prelude::*;

use crate::error::GeometryError;
use crate::measure::{
    is_nan, le, lemma_positive_split, lt, non_positive, passes_positive, Measure, FULL_TURN_BITS,
    ZERO_BITS,
};

verus! {

/// Whether every measurement of `ms` passes the "strictly positive" rule.
pub open spec fn all_pass_positive(ms: Seq<Measure>) -> bool {
    forall|i: int| 0 <= i < ms.len() ==> #[trigger] passes_positive(ms[i].bits)
}

/// Whether an angle in degrees lies in the range (0, 360]. A NaN does not.
pub open spec fn angle_in_range(angle: Measure) -> bool {
    lt(ZERO_BITS, angle.bits) && le(angle.bits, FULL_TURN_BITS)
}

/// The description carried by the error for a measurement that is NaN.
pub open spec fn nan_message() -> Seq<char> {
    "Measurement is not a number"@
}

/// The description carried by the error for an annulus whose inner radius
/// is not below its outer radius.
pub open spec fn annulus_message() -> Seq<char> {
    "Inner radius must be smaller than outer radius"@
}

/// The description carried by the error for three lengths that break the
/// strict triangle inequality.
pub open spec fn triangle_message() -> Seq<char> {
    "Invalid triangle sides"@
}

/// The description carried by the error for a polygon with fewer than
/// three sides.
pub open spec fn polygon_message() -> Seq<char> {
    "Polygon must have at least 3 sides"@
}

/// Whether some measurement of `ms` is zero or negative.
pub open spec fn any_non_positive(ms: Seq<Measure>) -> bool {
    exists|i: int| 0 <= i < ms.len() && #[trigger] non_positive(ms[i].bits)
}

/// Whether some measurement of `ms` is a NaN.
pub open spec fn any_nan(ms: Seq<Measure>) -> bool {
    exists|i: int| 0 <= i < ms.len() && #[trigger] is_nan(ms[i].bits)
}

/// The error for a measurement that is a NaN.
fn nan_error() -> (e: GeometryError)
    ensures
        e.is_invalid_input_with(nan_message()),
{
    GeometryError::InvalidInput("Measurement is not a number".to_string())
}

/// The "strictly positive" rule on one measurement: `NegativeValue` for
/// zero or a negative value, `InvalidInput` for a NaN.
pub fn check_positive(m: Measure) -> (r: Result<(), GeometryError>)
    ensures
        r is Ok <==> passes_positive(m.bits),
        non_positive(m.bits) ==> r == Err::<(), GeometryError>(GeometryError::NegativeValue),
        is_nan(m.bits) ==> r is Err && r->Err_0.is_invalid_input_with(nan_message()),
{
    proof {
        lemma_positive_split(m.bits);
    }
    if m.le(Measure::from_bits(ZERO_BITS)) {
        Err(GeometryError::NegativeValue)
    } else if m.is_nan() {
        Err(nan_error())
    } else {
        Ok(())
    }
}

/// The "strictly positive" rule on every measurement of a shape: if any is
/// zero or negative the error is `NegativeValue`; otherwise, if any is a
/// NaN, it is `InvalidInput`.
pub fn check_all_positive(ms: &[Measure]) -> (r: Result<(), GeometryError>)
    ensures
        r is Ok <==> all_pass_positive(ms@),
        any_non_positive(ms@) ==> r == Err::<(), GeometryError>(GeometryError::NegativeValue),
        !any_non_positive(ms@) && any_nan(ms@) ==> r is Err && r->Err_0.is_invalid_input_with(
            nan_message(),
        ),
{
    let mut i: usize = 0;
    while i < ms.len()
        invariant
            0 <= i <= ms@.len(),
            forall|j: int| 0 <= j < i ==> !#[trigger] non_positive(ms@[j].bits),
        decreases ms@.len() - i,
    {
        if ms[i].le(Measure::from_bits(ZERO_BITS)) {
            assert(non_positive(ms@[i as int].bits));
            proof {
                lemma_positive_split(ms@[i as int].bits);
            }
            assert(!passes_positive(ms@[i as int].bits));
            return Err(GeometryError::NegativeValue);
        }
        i = i + 1;
    }
    let mut k: usize = 0;
    while k < ms.len()
        invariant
            0 <= k <= ms@.len(),
            !any_non_positive(ms@),
            forall|j: int| 0 <= j < k ==> !#[trigger] is_nan(ms@[j].bits),
        decreases ms@.len() - k,
    {
        if ms[k].is_nan() {
            assert(is_nan(ms@[k as int].bits));
            proof {
                lemma_positive_split(ms@[k as int].bits);
            }
            assert(!passes_positive(ms@[k as int].bits));
            return Err(nan_error());
        }
        k = k + 1;
    }
    assert forall|j: int| 0 <= j < ms@.len() implies #[trigger] passes_positive(ms@[j].bits) by {
        lemma_positive_split(ms@[j].bits);
        assert(!non_positive(ms@[j].bits));
        assert(!is_nan(ms@[j].bits));
    }
    Ok(())
}

/// The range rule on an angle in degrees: it must lie in (0, 360].
pub fn check_angle(angle: Measure) -> (r: Result<(), GeometryError>)
    ensures
        r is Ok <==> angle_in_range(angle),
        r is Err ==> r == Err::<(), GeometryError>(GeometryError::InvalidAngle),
{
    if Measure::from_bits(ZERO_BITS).lt(angle) && angle.le(Measure::from_bits(FULL_TURN_BITS)) {
        Ok(())
    } else {
        Err(GeometryError::InvalidAngle)
    }
}

/// The rules for a circular sector or segment: a zero or negative radius
/// gives `NegativeValue`; then an angle in degrees outside (0, 360] gives
/// `InvalidAngle`; then a NaN radius gives `InvalidInput`.
pub fn check_sector(radius: Measure, angle: Measure) -> (r: Result<(), GeometryError>)
    ensures
        non_positive(radius.bits) ==> r == Err::<(), GeometryError>(GeometryError::NegativeValue),
        !non_positive(radius.bits) && !angle_in_range(angle) ==> r == Err::<(), GeometryError>(
            GeometryError::InvalidAngle,
        ),
        !non_positive(radius.bits) && angle_in_range(angle) && is_nan(radius.bits) ==> r is Err
            && r->Err_0.is_invalid_input_with(nan_message()),
        r is Ok <==> passes_positive(radius.bits) && angle_in_range(angle),
{
    proof {
        lemma_positive_split(radius.bits);
    }
    if radius.le(Measure::from_bits(ZERO_BITS)) {
        return Err(GeometryError::NegativeValue);
    }
    check_angle(angle)?;
    check_positive(radius)
}

/// The rules for an annulus: a zero or negative radius gives
/// `NegativeValue`; then a NaN radius gives `InvalidInput`; then an inner
/// radius not strictly below the outer one gives `InvalidInput`.
pub fn check_annulus(outer_radius: Measure, inner_radius: Measure) -> (r: Result<(), GeometryError>)
    ensures
        non_positive(outer_radius.bits) || non_positive(inner_radius.bits) ==> r == Err::<
            (),
            GeometryError,
        >(GeometryError::NegativeValue),
        !non_positive(outer_radius.bits) && !non_positive(inner_radius.bits) && (is_nan(
            outer_radius.bits,
        ) || is_nan(inner_radius.bits)) ==> r is Err && r->Err_0.is_invalid_input_with(
            nan_message(),
        ),
        passes_positive(outer_radius.bits) && passes_positive(inner_radius.bits) && le(
            outer_radius.bits,
            inner_radius.bits,
        ) ==> r is Err && r->Err_0.is_invalid_input_with(annulus_message()),
        r is Ok <==> passes_positive(outer_radius.bits) && passes_positive(inner_radius.bits)
            && !le(outer_radius.bits, inner_radius.bits),
{
    proof {
        lemma_positive_split(outer_radius.bits);
        lemma_positive_split(inner_radius.bits);
    }
    let zero = Measure::from_bits(ZERO_BITS);
    if outer_radius.le(zero) || inner_radius.le(zero) {
        return Err(GeometryError::NegativeValue);
    }
    if outer_radius.is_nan() || inner_radius.is_nan() {
        return Err(nan_error());
    }
    if outer_radius.le(inner_radius) {
        return Err(
            GeometryError::InvalidInput("Inner radius must be smaller than outer radius".to_string()),
        );
    }
    Ok(())
}

/// Whether the lengths `a`, `b`, `c`, with the pairwise sums `a_plus_b`,
/// `b_plus_c` and `a_plus_c` as computed in double precision, meet the
/// strict triangle inequality: each sum exceeds the remaining length.
pub open spec fn strict_triangle(
    a: Measure,
    b: Measure,
    c: Measure,
    a_plus_b: Measure,
    b_plus_c: Measure,
    a_plus_c: Measure,
) -> bool {
    !le(a_plus_b.bits, c.bits) && !le(b_plus_c.bits, a.bits) && !le(a_plus_c.bits, b.bits)
}

/// The rules for a triangle given by its sides: a zero or negative side
/// gives `NegativeValue`; then a NaN side gives `InvalidInput`; then a
/// pairwise sum (handed in as computed by the caller) that does not exceed
/// the remaining side gives `InvalidInput`.
pub fn check_triangle(
    a: Measure,
    b: Measure,
    c: Measure,
    a_plus_b: Measure,
    b_plus_c: Measure,
    a_plus_c: Measure,
) -> (r: Result<(), GeometryError>)
    ensures
        non_positive(a.bits) || non_positive(b.bits) || non_positive(c.bits) ==> r == Err::<
            (),
            GeometryError,
        >(GeometryError::NegativeValue),
        !non_positive(a.bits) && !non_positive(b.bits) && !non_positive(c.bits) && (is_nan(a.bits)
            || is_nan(b.bits) || is_nan(c.bits)) ==> r is Err && r->Err_0.is_invalid_input_with(
            nan_message(),
        ),
        passes_positive(a.bits) && passes_positive(b.bits) && passes_positive(c.bits)
            && !strict_triangle(a, b, c, a_plus_b, b_plus_c, a_plus_c) ==> r is Err
            && r->Err_0.is_invalid_input_with(triangle_message()),
        r is Ok <==> passes_positive(a.bits) && passes_positive(b.bits) && passes_positive(c.bits)
            && strict_triangle(a, b, c, a_plus_b, b_plus_c, a_plus_c),
{
    proof {
        lemma_positive_split(a.bits);
        lemma_positive_split(b.bits);
        lemma_positive_split(c.bits);
    }
    let zero = Measure::from_bits(ZERO_BITS);
    if a.le(zero) || b.le(zero) || c.le(zero) {
        return Err(GeometryError::NegativeValue);
    }
    if a.is_nan() || b.is_nan() || c.is_nan() {
        return Err(nan_error());
    }
    if a_plus_b.le(c) || b_plus_c.le(a) || a_plus_c.le(b) {
        return Err(GeometryError::InvalidInput("Invalid triangle sides".to_string()));
    }
    Ok(())
}

/// The rules for a regular polygon given by its number of sides and side
/// length: at least three sides, then a strictly positive side length.
pub fn check_polygon(sides: u32, side_length: Measure) -> (r: Result<(), GeometryError>)
    ensures
        sides < 3 ==> r is Err && r->Err_0.is_invalid_input_with(polygon_message()),
        sides >= 3 && non_positive(side_length.bits) ==> r == Err::<(), GeometryError>(
            GeometryError::NegativeValue,
        ),
        sides >= 3 && is_nan(side_length.bits) ==> r is Err && r->Err_0.is_invalid_input_with(
            nan_message(),
        ),
        r is Ok <==> sides >= 3 && passes_positive(side_length.bits),
{
    if sides < 3 {
        return Err(GeometryError::InvalidInput("Polygon must have at least 3 sides".to_string()));
    }
    check_positive(side_length)
}

} // verus!
