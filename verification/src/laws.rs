//! Properties that hold across the operations of this library.
use vstd::prelude::*;
use crate::binary64::{
    at_most, encodes_nan, less_than, magnitude, position, same_value, ONE, SIGN_BIT, ZERO,
};
use crate::error::Error;
use crate::great_circle::{
    arc_normal_spec, arc_refusal, has_antipodal_pair, initial_bearing_spec, intermediate_spec,
    intersection_spec, mean_spec, normal_intersection_spec, on_minor_arc, opposites_of, turn_spec,
    ArcDistances, Candidate,
};
use crate::vec3::{lemma_negated, negated, opposite, same_vector, Vec3Bits};

verus! {

/// No component of the vector is a NaN.
pub open spec fn no_nan(v: Vec3Bits) -> bool {
    !encodes_nan(v.x) && !encodes_nan(v.y) && !encodes_nan(v.z)
}

proof fn lemma_opposite_swaps(a: Vec3Bits, b: Vec3Bits)
    ensures
        same_vector(opposite(a), b) == same_vector(opposite(b), a),
{
    lemma_negated(a.x);
    lemma_negated(a.y);
    lemma_negated(a.z);
    lemma_negated(b.x);
    lemma_negated(b.y);
    lemma_negated(b.z);
}

/// A path leads from one position to another exactly when one leads back, and
/// a refusal gives the same reason both ways: a great circle or minor arc can
/// be made from `p1` to `p2` exactly when one can be made from `p2` to `p1`.
pub proof fn law_path_both_ways(v1: Vec3Bits, v2: Vec3Bits)
    ensures
        arc_refusal(v1, v2) == arc_refusal(v2, v1),
{
    lemma_opposite_swaps(v1, v2);
}

/// No path leads from a position to itself.
pub proof fn law_no_path_to_itself(v: Vec3Bits)
    requires
        no_nan(v),
    ensures
        arc_refusal(v, v) == Some(Error::CoincidentalPositions),
{
}

/// No path leads from a position to its antipode (unless the n-vector is the
/// zero vector, which is its own antipode).
pub proof fn law_no_path_to_antipode(v: Vec3Bits)
    requires
        no_nan(v),
        !same_vector(opposite(v), v),
    ensures
        arc_refusal(v, opposite(v)) == Some(Error::AntipodalPositions),
{
    lemma_negated(v.x);
    lemma_negated(v.y);
    lemma_negated(v.z);
}

/// The final bearing from `p1` to `p2` exists exactly when the initial bearing
/// from `p1` to `p2` exists.
pub proof fn law_bearings_exist_together<A>(v1: Vec3Bits, v2: Vec3Bits, initial: A, last: A)
    ensures
        initial_bearing_spec(v1, v2, initial).is_ok() == initial_bearing_spec(
            v2,
            v1,
            last,
        ).is_ok(),
{
}

/// There is no bearing from a position to itself.
pub proof fn law_no_bearing_to_itself<A>(v: Vec3Bits, bearing: A)
    requires
        no_nan(v),
    ensures
        initial_bearing_spec(v, v, bearing) == Err::<A, Error>(Error::CoincidentalPositions),
{
}

/// Turning back at `at` towards `from` is possible exactly when the leg from
/// `from` to `at` exists, and is refused for the same reason.
pub proof fn law_turn_back<A>(from: Vec3Bits, at: Vec3Bits, angle: A)
    ensures
        turn_spec(from, at, from, angle) == (match arc_refusal(from, at) {
            Some(e) => Err::<A, Error>(e),
            None => Ok(angle),
        }),
{
    law_path_both_ways(at, from);
}

/// Every fraction from `0.0` to `1.0` (either zero included) gives an
/// intermediate position, and every other number is refused; a NaN fraction
/// is not refused.
pub proof fn law_fraction_range<A>(f: u64, pos: A)
    ensures
        intermediate_spec(f, pos).is_err() <==> (!encodes_nan(f) && (position(f) < 0
            || position(f) > position(ONE))),
{
    assert(position(ZERO) == 0) by {
        assert(0u64 & 0x7FFF_FFFF_FFFF_FFFFu64 == 0) by (bit_vector);
        assert(0u64 & 0x8000_0000_0000_0000u64 == 0) by (bit_vector);
    }
    assert(!encodes_nan(ONE)) by {
        assert(0x3FF0_0000_0000_0000u64 & 0x7FFF_FFFF_FFFF_FFFFu64 == 0x3FF0_0000_0000_0000u64)
            by (bit_vector);
    }
    assert(!encodes_nan(ZERO)) by {
        assert(0u64 & 0x7FFF_FFFF_FFFF_FFFFu64 == 0) by (bit_vector);
    }
}

/// A mean is only ever given for at least one position, so the first
/// position (whose model the mean takes) always exists.
pub proof fn law_mean_needs_a_position(vs: Seq<Vec3Bits>, antipodes: Seq<Vec3Bits>, sum: Vec3Bits)
    ensures
        mean_spec(vs, antipodes, sum).is_ok() ==> vs.len() > 0,
        vs.len() == 0 ==> mean_spec(vs, antipodes, sum) == Err::<Vec3Bits, Error>(
            Error::NotEnoughPositions,
        ),
{
}

/// The mean of a single n-vector is that n-vector.
pub proof fn law_mean_of_one(v: Vec3Bits, antipode: Vec3Bits, sum: Vec3Bits)
    ensures
        mean_spec(seq![v], seq![antipode], sum) == Ok::<Vec3Bits, Error>(v),
{
}

/// The mean of n-vectors among which one is the antipode of another is
/// refused.
pub proof fn law_mean_refuses_antipodes(vs: Seq<Vec3Bits>, i: int, j: int, sum: Vec3Bits)
    requires
        vs.len() >= 2,
        0 <= i < vs.len(),
        0 <= j < vs.len(),
        same_vector(opposite(vs[i]), vs[j]),
    ensures
        mean_spec(vs, opposites_of(vs), sum) == Err::<Vec3Bits, Error>(Error::AntipodalPositions),
{
    let ants = opposites_of(vs);
    assert(ants[i] == opposite(vs[i]));
    assert(same_vector(ants[i], vs[j]));
    assert(has_antipodal_pair(vs, ants));
}

// ---------------------------------------------------------------------------
// What the operations answer, stated component by component in terms of the
// values that the encodings denote.
// ---------------------------------------------------------------------------

/// The two vectors have equal values in every component (as `==` on `f64`).
pub open spec fn equal_components(a: Vec3Bits, b: Vec3Bits) -> bool {
    same_value(a.x, b.x) && same_value(a.y, b.y) && same_value(a.z, b.z)
}

/// The value `a` is the negation of the value `b` (neither a NaN).
pub open spec fn mirrored(a: u64, b: u64) -> bool {
    !encodes_nan(a) && !encodes_nan(b) && position(a) == -position(b)
}

/// Every component of `a` is the negation of that of `b`: the positions are
/// antipodal.
pub open spec fn antipodal_components(a: Vec3Bits, b: Vec3Bits) -> bool {
    mirrored(a.x, b.x) && mirrored(a.y, b.y) && mirrored(a.z, b.z)
}

/// Every component of `v` equals `0.0`.
pub open spec fn all_zero(v: Vec3Bits) -> bool {
    same_value(v.x, ZERO) && same_value(v.y, ZERO) && same_value(v.z, ZERO)
}

/// No farther from either end of an arc than the ends are from each other.
pub open spec fn within_chord(to_start: u64, to_end: u64, chord: u64) -> bool {
    at_most(to_start, chord) && at_most(to_end, chord)
}

/// The candidate is on both minor arcs.
pub open spec fn on_both_arcs(c: Candidate) -> bool {
    within_chord(c.on_a.to_start, c.on_a.to_end, c.on_a.chord) && within_chord(
        c.on_b.to_start,
        c.on_b.to_end,
        c.on_b.chord,
    )
}

/// The antipode of `a` equals `b` exactly when every component of `a` is the
/// negation of that of `b`.
pub proof fn lemma_opposite_is_mirror(a: Vec3Bits, b: Vec3Bits)
    ensures
        same_vector(opposite(a), b) == antipodal_components(a, b),
{
    lemma_negated(a.x);
    lemma_negated(a.y);
    lemma_negated(a.z);
}

/// A great circle or minor arc through two positions is made (with the normal
/// computed for it) exactly when the positions are neither equal nor
/// antipodal; equal positions are refused as coincidental, antipodal ones as
/// antipodal.
pub proof fn law_path_exactly_between_distinct_non_antipodal(
    v1: Vec3Bits,
    v2: Vec3Bits,
    normal: Vec3Bits,
)
    ensures
        !equal_components(v1, v2) && !antipodal_components(v1, v2) ==> arc_normal_spec(
            v1,
            v2,
            normal,
        ) == Ok::<Vec3Bits, Error>(normal),
        equal_components(v1, v2) ==> arc_normal_spec(v1, v2, normal) == Err::<Vec3Bits, Error>(
            Error::CoincidentalPositions,
        ),
        !equal_components(v1, v2) && antipodal_components(v1, v2) ==> arc_normal_spec(
            v1,
            v2,
            normal,
        ) == Err::<Vec3Bits, Error>(Error::AntipodalPositions),
{
    lemma_opposite_is_mirror(v1, v2);
}

/// A turn exists whenever both of its legs exist (neither leg joins equal or
/// antipodal positions), whatever `from` and `to` are to each other, and the
/// turn is the computed angle; a refusal always comes from one of the legs.
pub proof fn law_turn_exactly_when_both_legs<A>(from: Vec3Bits, at: Vec3Bits, to: Vec3Bits, angle: A)
    ensures
        (!equal_components(from, at) && !antipodal_components(from, at) && !equal_components(
            at,
            to,
        ) && !antipodal_components(at, to)) ==> turn_spec(from, at, to, angle) == Ok::<
            A,
            Error,
        >(angle),
        turn_spec(from, at, to, angle).is_err() ==> (equal_components(from, at)
            || antipodal_components(from, at) || equal_components(at, to) || antipodal_components(
            at,
            to,
        )),
        turn_spec(from, at, to, angle).is_ok() ==> turn_spec(from, at, to, angle) == Ok::<
            A,
            Error,
        >(angle),
{
    lemma_opposite_is_mirror(from, at);
    lemma_opposite_is_mirror(at, to);
}

/// A bearing is refused only when the two n-vectors are equal in all three
/// components; otherwise it is the computed bearing. So positions that differ
/// in any one component (mirror images across the equator, say) have one.
pub proof fn law_bearing_exactly_between_distinct<A>(v1: Vec3Bits, v2: Vec3Bits, bearing: A)
    ensures
        equal_components(v1, v2) ==> initial_bearing_spec(v1, v2, bearing) == Err::<A, Error>(
            Error::CoincidentalPositions,
        ),
        !equal_components(v1, v2) ==> initial_bearing_spec(v1, v2, bearing) == Ok::<A, Error>(
            bearing,
        ),
        !same_value(v1.x, v2.x) || !same_value(v1.y, v2.y) || !same_value(v1.z, v2.z)
            ==> initial_bearing_spec(v1, v2, bearing).is_ok(),
{
}

/// Two great circles intersect (at the cross product of their normals and its
/// antipode) unless that cross product is `0.0` in all three components; only
/// then are they refused as the same path.
pub proof fn law_circles_meet_unless_cross_is_zero(cross: Vec3Bits)
    ensures
        all_zero(cross) ==> normal_intersection_spec(cross) == Err::<Vec3Bits, Error>(
            Error::CoincidentalPath,
        ),
        !all_zero(cross) ==> normal_intersection_spec(cross) == Ok::<Vec3Bits, Error>(cross),
        !same_value(cross.z, ZERO) ==> normal_intersection_spec(cross) == Ok::<Vec3Bits, Error>(
            cross,
        ),
{
}

/// An intersection of two minor arcs lies on both arcs: it is the candidate
/// on the side of the arcs' ends (the near one when its dot product with the
/// sum of the ends is positive, the far one otherwise), and that candidate is
/// no farther from either end of each arc than the arc's ends are from each
/// other. When the great circles do not coincide and that candidate is on
/// both arcs it is the answer; when it is off either arc the arcs do not
/// meet; when the circles coincide the answer is a coincidental path.
pub proof fn law_intersection_on_both_arcs(
    cross: Vec3Bits,
    near: Candidate,
    near_dot_mid: u64,
    far: Candidate,
)
    ensures
        ({
            let chosen = if less_than(ZERO, near_dot_mid) {
                near
            } else {
                far
            };
            &&& (intersection_spec(cross, near, near_dot_mid, far) matches Ok(p) ==> p == chosen.pos
                && on_both_arcs(chosen) && !all_zero(cross))
            &&& (!all_zero(cross) && on_both_arcs(chosen) ==> intersection_spec(
                cross,
                near,
                near_dot_mid,
                far,
            ) == Ok::<Vec3Bits, Error>(chosen.pos))
            &&& (!all_zero(cross) && !on_both_arcs(chosen) ==> intersection_spec(
                cross,
                near,
                near_dot_mid,
                far,
            ) == Err::<Vec3Bits, Error>(Error::NoIntersection))
            &&& (all_zero(cross) ==> intersection_spec(cross, near, near_dot_mid, far) == Err::<
                Vec3Bits,
                Error,
            >(Error::CoincidentalPath))
        }),
{
}

/// The mean of two or more positions none of whose (rounded) antipodes equals
/// any of the positions is the sum of their n-vectors; repeated positions in
/// particular are not refused. Only an antipode among the positions refuses
/// the mean as antipodal.
pub proof fn law_mean_is_sum_without_antipodes(
    vs: Seq<Vec3Bits>,
    antipodes: Seq<Vec3Bits>,
    sum: Vec3Bits,
)
    requires
        vs.len() == antipodes.len(),
    ensures
        vs.len() >= 2 && (forall|i: int, j: int|
            0 <= i < antipodes.len() && 0 <= j < vs.len() ==> !equal_components(
                #[trigger] antipodes[i],
                #[trigger] vs[j],
            )) ==> mean_spec(vs, antipodes, sum) == Ok::<Vec3Bits, Error>(sum),
        mean_spec(vs, antipodes, sum) == Err::<Vec3Bits, Error>(Error::AntipodalPositions) ==> (
        exists|i: int, j: int|
            0 <= i < antipodes.len() && 0 <= j < vs.len() && #[trigger] equal_components(
                antipodes[i],
                vs[j],
            )),
        mean_spec(vs, antipodes, sum) is Ok ==> mean_spec(vs, antipodes, sum) == Ok::<
            Vec3Bits,
            Error,
        >(if vs.len() == 1 {
            vs[0]
        } else {
            sum
        }),
{
    if mean_spec(vs, antipodes, sum) == Err::<Vec3Bits, Error>(Error::AntipodalPositions) {
        let (i, j) = choose|i: int, j: int|
            0 <= i < antipodes.len() && 0 <= j < vs.len() && #[trigger] same_vector(
                antipodes[i],
                vs[j],
            );
        assert(equal_components(antipodes[i], vs[j]));
    }
    if vs.len() >= 2 && (forall|i: int, j: int|
        0 <= i < antipodes.len() && 0 <= j < vs.len() ==> !equal_components(
            #[trigger] antipodes[i],
            #[trigger] vs[j],
        )) {
        assert(!has_antipodal_pair(vs, antipodes)) by {
            if has_antipodal_pair(vs, antipodes) {
                let (i, j) = choose|i: int, j: int|
                    0 <= i < antipodes.len() && 0 <= j < vs.len() && #[trigger] same_vector(
                        antipodes[i],
                        vs[j],
                    );
                assert(equal_components(antipodes[i], vs[j]));
            }
        }
    }
}

/// The mean of two or more n-vector positions none of which is the antipode
/// of another is the sum of their n-vectors, repeated positions included.
pub proof fn law_nvector_mean_is_sum_without_antipodes(vs: Seq<Vec3Bits>, sum: Vec3Bits)
    requires
        vs.len() >= 2,
        forall|i: int, j: int|
            0 <= i < vs.len() && 0 <= j < vs.len() ==> !antipodal_components(
                #[trigger] vs[i],
                #[trigger] vs[j],
            ),
    ensures
        mean_spec(vs, opposites_of(vs), sum) == Ok::<Vec3Bits, Error>(sum),
{
    let ants = opposites_of(vs);
    assert forall|i: int, j: int|
        0 <= i < ants.len() && 0 <= j < vs.len() implies !equal_components(
        #[trigger] ants[i],
        #[trigger] vs[j],
    ) by {
        lemma_opposite_is_mirror(vs[i], vs[j]);
        assert(ants[i] == opposite(vs[i]));
        assert(!antipodal_components(vs[i], vs[j]));
    }
    law_mean_is_sum_without_antipodes(vs, ants, sum);
}

/// A candidate is on a minor arc exactly when it is no farther from either
/// end than the ends are from each other.
pub proof fn law_on_arc_within_chord(d: ArcDistances)
    ensures
        on_minor_arc(d) == within_chord(d.to_start, d.to_end, d.chord),
        !at_most(d.to_start, d.chord) ==> !on_minor_arc(d),
        !at_most(d.to_end, d.chord) ==> !on_minor_arc(d),
{
}

/// Negating a zero gives `+0.0`, and negating any other number flips its sign
/// bit only.
pub proof fn law_negation_keeps_zeros_positive(b: u64)
    ensures
        magnitude(b) == 0 ==> negated(b) == ZERO,
        magnitude(b) != 0 ==> magnitude(negated(b)) == magnitude(b) && negated(b) != b,
{
    assert(forall|x: u64|
        #![trigger x ^ 0x8000_0000_0000_0000u64]
        (x ^ 0x8000_0000_0000_0000u64) & 0x7FFF_FFFF_FFFF_FFFFu64 == x & 0x7FFF_FFFF_FFFF_FFFFu64
            && (x ^ 0x8000_0000_0000_0000u64) != x) by (bit_vector);
    assert((b ^ SIGN_BIT) & 0x7FFF_FFFF_FFFF_FFFFu64 == b & 0x7FFF_FFFF_FFFF_FFFFu64);
}

/// The comparisons agree with one another as on numbers: `<=` is `<` or `==`,
/// `<` is irreflexive and asymmetric, any two numbers that are not NaN are
/// ordered one way or equal, a NaN compares false with everything, the two
/// zeros are equal, and `0.0 < 1.0`.
pub proof fn law_comparisons_agree(a: u64, b: u64)
    ensures
        at_most(a, b) == (less_than(a, b) || same_value(a, b)),
        less_than(a, b) ==> !less_than(b, a) && !same_value(a, b),
        !encodes_nan(a) && !encodes_nan(b) ==> (less_than(a, b) || less_than(b, a) || same_value(
            a,
            b,
        )),
        encodes_nan(a) ==> !same_value(a, b) && !less_than(a, b) && !less_than(b, a) && !at_most(
            a,
            b,
        ),
        same_value(a, b) == same_value(b, a),
        same_value(ZERO, SIGN_BIT),
        less_than(ZERO, ONE),
{
    assert(0u64 & 0x7FFF_FFFF_FFFF_FFFFu64 == 0) by (bit_vector);
    assert(0u64 & 0x8000_0000_0000_0000u64 == 0) by (bit_vector);
    assert(0x8000_0000_0000_0000u64 & 0x7FFF_FFFF_FFFF_FFFFu64 == 0) by (bit_vector);
    assert(0x8000_0000_0000_0000u64 & 0x8000_0000_0000_0000u64 != 0) by (bit_vector);
    assert(0x3FF0_0000_0000_0000u64 & 0x7FFF_FFFF_FFFF_FFFFu64 == 0x3FF0_0000_0000_0000u64)
        by (bit_vector);
    assert(0x3FF0_0000_0000_0000u64 & 0x8000_0000_0000_0000u64 == 0) by (bit_vector);
}

} // verus!
