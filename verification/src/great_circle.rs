//! Great circles and minor arcs, and the decisions that positions on the sphere
//! call for: when two positions define a path, when paths intersect, when a
//! mean exists, when a bearing or a turn exists.
//!
//! The arithmetic of these operations (cross and dot products, trigonometry,
//! the conversion between latitude/longitude and n-vectors) is floating point
//! and is done by the caller; its results reach the functions here as bit
//! encodings, and every decision is taken here on those encodings exactly as
//! `==`, `<` and `<=` on `f64` would take it.
use vstd::prelude::*;
use vstd::std_specs::cmp::{PartialEqSpec, PartialEqSpecImpl};
use crate::binary64::{at_most, le, less_than, lt, same_value, eq, ONE, ZERO};
use crate::error::Error;
use crate::vec3::{is_zero_vector, opposite, same_vector, Vec3Bits};

verus! {

/// A position given by its n-vector (the unit vector normal to the sphere at
/// the position) and the model of the sphere. `==` compares the n-vectors by
/// value (as `==` on `f64` does) and the models.
#[derive(Clone, Copy, Debug)]
pub struct NvectorPos<S> {
    pub nvector: Vec3Bits,
    pub model: S,
}

/// A position given by latitude and longitude. This library reads such a
/// position only through the n-vector that its latitude and longitude give
/// (its `to_nvector`), which is held here, and through its model. A position
/// that this library hands back holds the n-vector from which its latitude
/// and longitude are to be made (`from_nvector`), and the model it is in.
/// `==` compares the n-vectors by value and the models.
#[derive(Clone, Copy, Debug)]
pub struct LatLongPos<S> {
    pub nvector: Vec3Bits,
    pub model: S,
}

/// A great circle: a position on it and the normal to its plane. `==`
/// compares the positions and the normals (by value).
#[derive(Clone, Copy, Debug)]
pub struct GreatCircle<P> {
    pub position: P,
    pub normal: Vec3Bits,
}

/// The shorter arc of the great circle between two positions, with the normal
/// to its plane. `==` compares the ends and the normals (by value).
#[derive(Clone, Copy, Debug)]
pub struct MinorArc<P> {
    pub start_pos: P,
    pub end_pos: P,
    pub normal: Vec3Bits,
}

/// Square distances from a candidate position to the ends of a minor arc, and
/// the square length of the arc's chord.
#[derive(Clone, Copy, Debug)]
pub struct ArcDistances {
    pub to_start: u64,
    pub to_end: u64,
    pub chord: u64,
}

/// A candidate intersection of two minor arcs and its square distances to the
/// ends of each arc.
#[derive(Clone, Copy, Debug)]
pub struct Candidate {
    pub pos: Vec3Bits,
    pub on_a: ArcDistances,
    pub on_b: ArcDistances,
}

impl<S: PartialEq + PartialEqSpec> PartialEq for NvectorPos<S> {
    fn eq(&self, other: &NvectorPos<S>) -> (r: bool) {
        self.nvector.same_as(&other.nvector) && self.model == other.model
    }
}

impl<S: PartialEq + PartialEqSpec> PartialEqSpecImpl for NvectorPos<S> {
    open spec fn obeys_eq_spec() -> bool {
        S::obeys_eq_spec()
    }

    open spec fn eq_spec(&self, other: &NvectorPos<S>) -> bool {
        same_vector(self.nvector, other.nvector) && self.model.eq_spec(&other.model)
    }
}

impl<S: PartialEq + PartialEqSpec> PartialEq for LatLongPos<S> {
    fn eq(&self, other: &LatLongPos<S>) -> (r: bool) {
        self.nvector.same_as(&other.nvector) && self.model == other.model
    }
}

impl<S: PartialEq + PartialEqSpec> PartialEqSpecImpl for LatLongPos<S> {
    open spec fn obeys_eq_spec() -> bool {
        S::obeys_eq_spec()
    }

    open spec fn eq_spec(&self, other: &LatLongPos<S>) -> bool {
        same_vector(self.nvector, other.nvector) && self.model.eq_spec(&other.model)
    }
}

impl<P: PartialEq + PartialEqSpec> PartialEq for GreatCircle<P> {
    fn eq(&self, other: &GreatCircle<P>) -> (r: bool) {
        self.position == other.position && self.normal.same_as(&other.normal)
    }
}

impl<P: PartialEq + PartialEqSpec> PartialEqSpecImpl for GreatCircle<P> {
    open spec fn obeys_eq_spec() -> bool {
        P::obeys_eq_spec()
    }

    open spec fn eq_spec(&self, other: &GreatCircle<P>) -> bool {
        self.position.eq_spec(&other.position) && same_vector(self.normal, other.normal)
    }
}

impl<P: PartialEq + PartialEqSpec> PartialEq for MinorArc<P> {
    fn eq(&self, other: &MinorArc<P>) -> (r: bool) {
        self.start_pos == other.start_pos && self.end_pos == other.end_pos
            && self.normal.same_as(&other.normal)
    }
}

impl<P: PartialEq + PartialEqSpec> PartialEqSpecImpl for MinorArc<P> {
    open spec fn obeys_eq_spec() -> bool {
        P::obeys_eq_spec()
    }

    open spec fn eq_spec(&self, other: &MinorArc<P>) -> bool {
        self.start_pos.eq_spec(&other.start_pos) && self.end_pos.eq_spec(&other.end_pos)
            && same_vector(self.normal, other.normal)
    }
}

// ---------------------------------------------------------------------------
// What each operation decides.
// ---------------------------------------------------------------------------

/// Why no path leads from `v1` to `v2`, if none does: the positions coincide
/// or are antipodal.
pub open spec fn arc_refusal(v1: Vec3Bits, v2: Vec3Bits) -> Option<Error> {
    if same_vector(v1, v2) {
        Some(Error::CoincidentalPositions)
    } else if same_vector(opposite(v1), v2) {
        Some(Error::AntipodalPositions)
    } else {
        None
    }
}

/// The normal of the path from `v1` to `v2` (their cross product `normal`),
/// unless no path leads from one to the other.
pub open spec fn arc_normal_spec(v1: Vec3Bits, v2: Vec3Bits, normal: Vec3Bits) -> Result<
    Vec3Bits,
    Error,
> {
    match arc_refusal(v1, v2) {
        Some(e) => Err(e),
        None => Ok(normal),
    }
}

/// The intersection `i` (the cross product of two normals) unless it is the
/// zero vector, which it is when the normals are the same or opposite.
pub open spec fn normal_intersection_spec(i: Vec3Bits) -> Result<Vec3Bits, Error> {
    if is_zero_vector(i) {
        Err(Error::CoincidentalPath)
    } else {
        Ok(i)
    }
}

/// The bearing from `v1` to `v2` exists unless the two positions are the same.
pub open spec fn initial_bearing_spec<A>(v1: Vec3Bits, v2: Vec3Bits, bearing: A) -> Result<
    A,
    Error,
> {
    if same_vector(v1, v2) {
        Err(Error::CoincidentalPositions)
    } else {
        Ok(bearing)
    }
}

/// The fraction `f` is refused when `f < 0.0 || f > 1.0`.
pub open spec fn fraction_refused(f: u64) -> bool {
    less_than(f, ZERO) || less_than(ONE, f)
}

/// A position at fraction `f` of the way exists unless `f` is refused.
pub open spec fn intermediate_spec<A>(f: u64, pos: A) -> Result<A, Error> {
    if fraction_refused(f) {
        Err(Error::OutOfRange)
    } else {
        Ok(pos)
    }
}

/// Some rounded antipode equals some position.
pub open spec fn has_antipodal_pair(vs: Seq<Vec3Bits>, antipodes: Seq<Vec3Bits>) -> bool {
    exists|i: int, j: int|
        0 <= i < antipodes.len() && 0 <= j < vs.len() && #[trigger] same_vector(
            antipodes[i],
            vs[j],
        )
}

/// The mean of the n-vectors `vs`, whose (rounded) antipodes are `antipodes`
/// and whose sum is `sum`.
pub open spec fn mean_spec(vs: Seq<Vec3Bits>, antipodes: Seq<Vec3Bits>, sum: Vec3Bits) -> Result<
    Vec3Bits,
    Error,
> {
    if vs.len() == 0 {
        Err(Error::NotEnoughPositions)
    } else if vs.len() == 1 {
        Ok(vs[0])
    } else if has_antipodal_pair(vs, antipodes) {
        Err(Error::AntipodalPositions)
    } else {
        Ok(sum)
    }
}

/// The turn at `at` on the way from `from` to `to` exists when both legs have
/// a normal.
pub open spec fn turn_spec<A>(from: Vec3Bits, at: Vec3Bits, to: Vec3Bits, angle: A) -> Result<
    A,
    Error,
> {
    match arc_refusal(from, at) {
        Some(e) => Err(e),
        None => match arc_refusal(at, to) {
            Some(e) => Err(e),
            None => Ok(angle),
        },
    }
}

/// The candidate lies on the minor arc: no farther from either end than the
/// ends are from each other.
pub open spec fn on_minor_arc(d: ArcDistances) -> bool {
    at_most(d.to_start, d.chord) && at_most(d.to_end, d.chord)
}

/// The intersection of two minor arcs with normals `na` and `nb`: `cross` is
/// `na × nb`, `near` is that intersection rounded, `near_dot_mid` its dot
/// product with the sum of the four ends, and `far` is its antipode rounded.
pub open spec fn intersection_spec(
    cross: Vec3Bits,
    near: Candidate,
    near_dot_mid: u64,
    far: Candidate,
) -> Result<Vec3Bits, Error> {
    if is_zero_vector(cross) {
        Err(Error::CoincidentalPath)
    } else {
        let pot = if less_than(ZERO, near_dot_mid) {
            near
        } else {
            far
        };
        if on_minor_arc(pot.on_a) && on_minor_arc(pot.on_b) {
            Ok(pot.pos)
        } else {
            Err(Error::NoIntersection)
        }
    }
}

/// The n-vectors of a sequence of positions.
pub open spec fn nvectors_of<S>(ps: Seq<NvectorPos<S>>) -> Seq<Vec3Bits> {
    ps.map_values(|p: NvectorPos<S>| p.nvector)
}

/// The n-vectors of a sequence of latitude/longitude positions.
pub open spec fn latlong_nvectors_of<S>(ps: Seq<LatLongPos<S>>) -> Seq<Vec3Bits> {
    ps.map_values(|p: LatLongPos<S>| p.nvector)
}

/// The antipodes of a sequence of vectors.
pub open spec fn opposites_of(vs: Seq<Vec3Bits>) -> Seq<Vec3Bits> {
    vs.map_values(|v: Vec3Bits| opposite(v))
}

// ---------------------------------------------------------------------------
// The decisions, executable.
// ---------------------------------------------------------------------------

/// The normal of the path from `v1` to `v2`; `normal` is `v1 × v2`.
pub fn arc_normal(v1: Vec3Bits, v2: Vec3Bits, normal: Vec3Bits) -> (r: Result<Vec3Bits, Error>)
    ensures
        r == arc_normal_spec(v1, v2, normal),
{
    match path_refusal(v1, v2) {
        Some(e) => Err(e),
        None => Ok(normal),
    }
}

/// Why no path leads from `v1` to `v2`, if none does.
pub fn path_refusal(v1: Vec3Bits, v2: Vec3Bits) -> (r: Option<Error>)
    ensures
        r == arc_refusal(v1, v2),
{
    if v1.same_as(&v2) {
        Some(Error::CoincidentalPositions)
    } else if v1.antipode().same_as(&v2) {
        Some(Error::AntipodalPositions)
    } else {
        None
    }
}

/// The intersection of two great circles, given the cross product `i` of
/// their normals.
pub fn normal_intersection(i: Vec3Bits) -> (r: Result<Vec3Bits, Error>)
    ensures
        r == normal_intersection_spec(i),
{
    if i.is_zero() {
        Err(Error::CoincidentalPath)
    } else {
        Ok(i)
    }
}

/// The initial bearing from `v1` to `v2`, computed as `bearing`.
pub fn initial_bearing_radians<A>(v1: Vec3Bits, v2: Vec3Bits, bearing: A) -> (r: Result<A, Error>)
    ensures
        r == initial_bearing_spec(v1, v2, bearing),
{
    if v1.same_as(&v2) {
        Err(Error::CoincidentalPositions)
    } else {
        Ok(bearing)
    }
}

/// The final bearing from `v1` to `v2`: the initial bearing from `v2` to `v1`
/// turned half a circle, computed as `bearing`.
pub fn final_bearing_radians<A>(v1: Vec3Bits, v2: Vec3Bits, bearing: A) -> (r: Result<A, Error>)
    ensures
        r == initial_bearing_spec(v2, v1, bearing),
{
    initial_bearing_radians(v2, v1, bearing)
}

/// The position at fraction `f` (an encoding) of the way, computed as `pos`.
pub fn intermediate_pos<A>(f: u64, pos: A) -> (r: Result<A, Error>)
    ensures
        r == intermediate_spec(f, pos),
{
    if lt(f, ZERO) || lt(ONE, f) {
        Err(Error::OutOfRange)
    } else {
        Ok(pos)
    }
}

/// The mean of the n-vectors `vs`, where `antipodes[k]` is the rounded antipode
/// of `vs[k]` and `sum` is the sum of all of `vs`.
pub fn mean(vs: &[Vec3Bits], antipodes: &[Vec3Bits], sum: Vec3Bits) -> (r: Result<Vec3Bits, Error>)
    requires
        vs.len() == antipodes.len(),
    ensures
        r == mean_spec(vs@, antipodes@, sum),
{
    if vs.len() == 0 {
        return Err(Error::NotEnoughPositions);
    }
    if vs.len() == 1 {
        return Ok(vs[0]);
    }
    let mut i: usize = 0;
    while i < antipodes.len()
        invariant
            i <= antipodes.len(),
            vs.len() == antipodes.len(),
            vs.len() > 1,
            forall|k: int, j: int|
                0 <= k < i && 0 <= j < vs.len() ==> !#[trigger] same_vector(antipodes@[k], vs@[j]),
        decreases antipodes.len() - i,
    {
        let mut j: usize = 0;
        while j < vs.len()
            invariant
                i < antipodes.len(),
                j <= vs.len(),
                vs.len() == antipodes.len(),
                vs.len() > 1,
                forall|l: int| 0 <= l < j ==> !#[trigger] same_vector(antipodes@[i as int], vs@[l]),
            decreases vs.len() - j,
        {
            if antipodes[i].same_as(&vs[j]) {
                assert(same_vector(antipodes@[i as int], vs@[j as int]));
                return Err(Error::AntipodalPositions);
            }
            j = j + 1;
        }
        i = i + 1;
    }
    Ok(sum)
}

/// The turn at `at` on the way from `from` to `to`, computed as `angle`.
/// (The normals of the two legs enter only the computation of `angle`.)
pub fn turn_radians<A>(from: Vec3Bits, at: Vec3Bits, to: Vec3Bits, angle: A) -> (r: Result<
    A,
    Error,
>)
    ensures
        r == turn_spec(from, at, to, angle),
{
    match path_refusal(from, at) {
        Some(e) => Err(e),
        None => match path_refusal(at, to) {
            Some(e) => Err(e),
            None => Ok(angle),
        },
    }
}

/// Whether a candidate lies on a minor arc, given its square distances.
pub fn is_on_minor_arc(d: ArcDistances) -> (r: bool)
    ensures
        r == on_minor_arc(d),
{
    le(d.to_start, d.chord) && le(d.to_end, d.chord)
}

/// The intersection of two minor arcs (see `intersection_spec`).
pub fn intersection(cross: Vec3Bits, near: Candidate, near_dot_mid: u64, far: Candidate) -> (r:
    Result<Vec3Bits, Error>)
    ensures
        r == intersection_spec(cross, near, near_dot_mid, far),
{
    if cross.is_zero() {
        return Err(Error::CoincidentalPath);
    }
    let pot = if lt(ZERO, near_dot_mid) {
        near
    } else {
        far
    };
    if is_on_minor_arc(pot.on_a) && is_on_minor_arc(pot.on_b) {
        Ok(pot.pos)
    } else {
        Err(Error::NoIntersection)
    }
}

// ---------------------------------------------------------------------------
// Positions.
// ---------------------------------------------------------------------------

impl<S: Copy> NvectorPos<S> {
    /// The position with the given n-vector and model.
    pub fn new(nvector: Vec3Bits, model: S) -> (p: NvectorPos<S>)
        ensures
            p.nvector == nvector,
            p.model == model,
    {
        NvectorPos { nvector, model }
    }

    /// The mean position of `ps`, where `sum` is the sum of their n-vectors:
    /// refused for no position and for positions among which one is the
    /// antipode of another; the single position for one; otherwise the sum,
    /// in the model of the first position.
    pub fn from_mean(ps: &[NvectorPos<S>], sum: Vec3Bits) -> (r: Result<NvectorPos<S>, Error>)
        ensures
            match mean_spec(nvectors_of(ps@), opposites_of(nvectors_of(ps@)), sum) {
                Ok(m) => r == Ok::<NvectorPos<S>, Error>(NvectorPos { nvector: m, model: ps@[0].model }),
                Err(e) => r == Err::<NvectorPos<S>, Error>(e),
            },
    {
        let mut vs: Vec<Vec3Bits> = Vec::new();
        let mut antipodes: Vec<Vec3Bits> = Vec::new();
        let mut k: usize = 0;
        while k < ps.len()
            invariant
                k <= ps.len(),
                vs@.len() == k,
                antipodes@.len() == k,
                forall|l: int| 0 <= l < k ==> #[trigger] vs@[l] == ps@[l].nvector,
                forall|l: int| 0 <= l < k ==> #[trigger] antipodes@[l] == opposite(ps@[l].nvector),
            decreases ps.len() - k,
        {
            vs.push(ps[k].nvector);
            antipodes.push(ps[k].nvector.antipode());
            k = k + 1;
        }
        assert(vs@ =~= nvectors_of(ps@));
        assert(antipodes@ =~= opposites_of(nvectors_of(ps@)));
        match mean(vs.as_slice(), antipodes.as_slice(), sum) {
            Ok(m) => Ok(NvectorPos { nvector: m, model: ps[0].model }),
            Err(e) => Err(e),
        }
    }

    /// The destination after travelling `distance_metres` (an encoding): this
    /// very position when the distance is `0.0`, otherwise the position with
    /// the n-vector `moved` that the travel computes, in the same model.
    pub fn destination_pos(&self, distance_metres: u64, moved: Vec3Bits) -> (r: NvectorPos<S>)
        ensures
            same_value(distance_metres, ZERO) ==> r == *self,
            !same_value(distance_metres, ZERO) ==> r == (NvectorPos { nvector: moved, model: self.model }),
    {
        if eq(distance_metres, ZERO) {
            *self
        } else {
            NvectorPos { nvector: moved, model: self.model }
        }
    }

    /// The final bearing in degrees to `to`, computed as `bearing_degrees`;
    /// refused when the positions are the same.
    pub fn final_bearing_degrees_to(&self, to: NvectorPos<S>, bearing_degrees: u64) -> (r: Result<
        u64,
        Error,
    >)
        ensures
            r == initial_bearing_spec(to.nvector, self.nvector, bearing_degrees),
    {
        final_bearing_radians(self.nvector, to.nvector, bearing_degrees)
    }

    /// The initial bearing in degrees to `to`, computed as `bearing_degrees`;
    /// refused when the positions are the same.
    pub fn initial_bearing_degrees_to(&self, to: NvectorPos<S>, bearing_degrees: u64) -> (r:
        Result<u64, Error>)
        ensures
            r == initial_bearing_spec(self.nvector, to.nvector, bearing_degrees),
    {
        initial_bearing_radians(self.nvector, to.nvector, bearing_degrees)
    }

    /// The position at fraction `f` (an encoding) of the way to `to`, whose
    /// n-vector is computed as `nvector`; refused when `f` lies outside `[0, 1]`.
    pub fn intermediate_pos_to(&self, to: NvectorPos<S>, f: u64, nvector: Vec3Bits) -> (r: Result<
        NvectorPos<S>,
        Error,
    >)
        ensures
            r == intermediate_spec(f, NvectorPos { nvector, model: self.model }),
    {
        intermediate_pos(f, NvectorPos { nvector, model: self.model })
    }

    /// The turn in degrees at this position on the way from `from` to `to`,
    /// computed as `degrees`; refused when either leg has no path.
    pub fn turn_degrees(&self, from: NvectorPos<S>, to: NvectorPos<S>, degrees: u64) -> (r: Result<
        u64,
        Error,
    >)
        ensures
            r == turn_spec(from.nvector, self.nvector, to.nvector, degrees),
    {
        turn_radians(from.nvector, self.nvector, to.nvector, degrees)
    }
}

impl<S: Copy> LatLongPos<S> {
    /// The latitude/longitude position whose n-vector is `nvector`.
    pub fn new(nvector: Vec3Bits, model: S) -> (p: LatLongPos<S>)
        ensures
            p.nvector == nvector,
            p.model == model,
    {
        LatLongPos { nvector, model }
    }

    /// The mean position of `ps`, where `rounded_antipodes[k]` is the antipode
    /// of the n-vector of `ps[k]` rounded to the angle resolution and `sum` is
    /// the sum of their n-vectors: refused for no position and for positions
    /// among which a rounded antipode of one is another; made from the single
    /// n-vector for one position, otherwise from the sum; in the model of the
    /// first position.
    pub fn from_mean(ps: &[LatLongPos<S>], rounded_antipodes: &[Vec3Bits], sum: Vec3Bits) -> (r:
        Result<LatLongPos<S>, Error>)
        requires
            ps.len() == rounded_antipodes.len(),
        ensures
            match mean_spec(latlong_nvectors_of(ps@), rounded_antipodes@, sum) {
                Ok(m) => r == Ok::<LatLongPos<S>, Error>(LatLongPos { nvector: m, model: ps@[0].model }),
                Err(e) => r == Err::<LatLongPos<S>, Error>(e),
            },
    {
        let mut vs: Vec<Vec3Bits> = Vec::new();
        let mut k: usize = 0;
        while k < ps.len()
            invariant
                k <= ps.len(),
                vs@.len() == k,
                forall|l: int| 0 <= l < k ==> #[trigger] vs@[l] == ps@[l].nvector,
            decreases ps.len() - k,
        {
            vs.push(ps[k].nvector);
            k = k + 1;
        }
        assert(vs@ =~= latlong_nvectors_of(ps@));
        match mean(vs.as_slice(), rounded_antipodes, sum) {
            Ok(m) => Ok(LatLongPos { nvector: m, model: ps[0].model }),
            Err(e) => Err(e),
        }
    }

    /// The destination after travelling `distance_metres` (an encoding), in
    /// this position's model: made from the n-vector of this position when the
    /// distance is `0.0`, otherwise from `moved`, the n-vector that the travel
    /// computes.
    pub fn destination_pos(&self, distance_metres: u64, moved: Vec3Bits) -> (r: LatLongPos<S>)
        ensures
            r == (LatLongPos {
                nvector: if same_value(distance_metres, ZERO) {
                    self.nvector
                } else {
                    moved
                },
                model: self.model,
            }),
    {
        if eq(distance_metres, ZERO) {
            LatLongPos { nvector: self.nvector, model: self.model }
        } else {
            LatLongPos { nvector: moved, model: self.model }
        }
    }

    /// The final bearing to `to`, computed as `bearing`; refused when the
    /// positions are the same.
    pub fn final_bearing_to<A>(&self, to: LatLongPos<S>, bearing: A) -> (r: Result<A, Error>)
        ensures
            r == initial_bearing_spec(to.nvector, self.nvector, bearing),
    {
        final_bearing_radians(self.nvector, to.nvector, bearing)
    }

    /// The initial bearing to `to`, computed as `bearing`; refused when the
    /// positions are the same.
    pub fn initial_bearing_to<A>(&self, to: LatLongPos<S>, bearing: A) -> (r: Result<A, Error>)
        ensures
            r == initial_bearing_spec(self.nvector, to.nvector, bearing),
    {
        initial_bearing_radians(self.nvector, to.nvector, bearing)
    }

    /// The position at fraction `f` (an encoding) of the way to `to`, made
    /// from the n-vector computed as `nvector`, in this position's model;
    /// refused when `f` lies outside `[0, 1]`.
    pub fn intermediate_pos_to(&self, to: LatLongPos<S>, f: u64, nvector: Vec3Bits) -> (r: Result<
        LatLongPos<S>,
        Error,
    >)
        ensures
            r == intermediate_spec(f, LatLongPos { nvector, model: self.model }),
    {
        intermediate_pos(f, LatLongPos { nvector, model: self.model })
    }

    /// The turn at this position on the way from `from` to `to`, computed as
    /// `angle`; refused when either leg has no path.
    pub fn turn<A>(&self, from: LatLongPos<S>, to: LatLongPos<S>, angle: A) -> (r: Result<A, Error>)
        ensures
            r == turn_spec(from.nvector, self.nvector, to.nvector, angle),
    {
        turn_radians(from.nvector, self.nvector, to.nvector, angle)
    }
}

// ---------------------------------------------------------------------------
// Great circles and minor arcs.
// ---------------------------------------------------------------------------

impl<S: Copy> GreatCircle<LatLongPos<S>> {
    /// The great circle through `p1` and `p2`, whose normal is computed as
    /// `normal` (the cross product of their n-vectors).
    pub fn from_lat_longs(p1: LatLongPos<S>, p2: LatLongPos<S>, normal: Vec3Bits) -> (r: Result<
        GreatCircle<LatLongPos<S>>,
        Error,
    >)
        ensures
            match arc_normal_spec(p1.nvector, p2.nvector, normal) {
                Ok(n) => r == Ok::<GreatCircle<LatLongPos<S>>, Error>(GreatCircle { position: p1, normal: n }),
                Err(e) => r == Err::<GreatCircle<LatLongPos<S>>, Error>(e),
            },
    {
        match arc_normal(p1.nvector, p2.nvector, normal) {
            Ok(n) => Ok(GreatCircle { position: p1, normal: n }),
            Err(e) => Err(e),
        }
    }

    /// The great circle through `pos` heading at a bearing, whose normal is
    /// computed as `normal`.
    pub fn from_lat_long_bearing(pos: LatLongPos<S>, normal: Vec3Bits) -> (r: GreatCircle<
        LatLongPos<S>,
    >)
        ensures
            r == (GreatCircle { position: pos, normal }),
    {
        GreatCircle { position: pos, normal }
    }

    /// The two intersections with `other`, given the cross product `cross` of
    /// the two normals: the positions made from that product and from its
    /// antipode, in the model of this circle's position.
    pub fn intersections_with(&self, other: GreatCircle<LatLongPos<S>>, cross: Vec3Bits) -> (r:
        Result<(LatLongPos<S>, LatLongPos<S>), Error>)
        ensures
            match normal_intersection_spec(cross) {
                Ok(i) => r == Ok::<(LatLongPos<S>, LatLongPos<S>), Error>(
                    (
                        LatLongPos { nvector: i, model: self.position.model },
                        LatLongPos { nvector: opposite(i), model: self.position.model },
                    ),
                ),
                Err(e) => r == Err::<(LatLongPos<S>, LatLongPos<S>), Error>(e),
            },
    {
        match normal_intersection(cross) {
            Ok(i) => {
                let lli = LatLongPos { nvector: i, model: self.position.model };
                let anti = LatLongPos { nvector: i.antipode(), model: self.position.model };
                Ok((lli, anti))
            },
            Err(e) => Err(e),
        }
    }
}

impl<S: Copy> GreatCircle<NvectorPos<S>> {
    /// The great circle through `p1` and `p2`, whose normal is computed as
    /// `normal` (the cross product of their n-vectors).
    pub fn from_nvectors(p1: NvectorPos<S>, p2: NvectorPos<S>, normal: Vec3Bits) -> (r: Result<
        GreatCircle<NvectorPos<S>>,
        Error,
    >)
        ensures
            match arc_normal_spec(p1.nvector, p2.nvector, normal) {
                Ok(n) => r == Ok::<GreatCircle<NvectorPos<S>>, Error>(GreatCircle { position: p1, normal: n }),
                Err(e) => r == Err::<GreatCircle<NvectorPos<S>>, Error>(e),
            },
    {
        match arc_normal(p1.nvector, p2.nvector, normal) {
            Ok(n) => Ok(GreatCircle { position: p1, normal: n }),
            Err(e) => Err(e),
        }
    }

    /// The great circle through `pos` heading at a bearing in degrees, whose
    /// normal is computed as `normal`.
    pub fn from_nvector_bearing_degrees(pos: NvectorPos<S>, normal: Vec3Bits) -> (r: GreatCircle<
        NvectorPos<S>,
    >)
        ensures
            r == (GreatCircle { position: pos, normal }),
    {
        GreatCircle { position: pos, normal }
    }

    /// The two intersections with `other`, given the cross product `cross` of
    /// the two normals: that product and its antipode, in the model of this
    /// circle's position.
    pub fn intersections_with(&self, other: GreatCircle<NvectorPos<S>>, cross: Vec3Bits) -> (r:
        Result<(NvectorPos<S>, NvectorPos<S>), Error>)
        ensures
            match normal_intersection_spec(cross) {
                Ok(i) => r == Ok::<(NvectorPos<S>, NvectorPos<S>), Error>(
                    (
                        NvectorPos { nvector: i, model: self.position.model },
                        NvectorPos { nvector: opposite(i), model: self.position.model },
                    ),
                ),
                Err(e) => r == Err::<(NvectorPos<S>, NvectorPos<S>), Error>(e),
            },
    {
        match normal_intersection(cross) {
            Ok(i) => {
                let nvi = NvectorPos { nvector: i, model: self.position.model };
                let anti = NvectorPos { nvector: i.antipode(), model: self.position.model };
                Ok((nvi, anti))
            },
            Err(e) => Err(e),
        }
    }
}

impl<P: Copy> MinorArc<P> {
    /// Where the arc starts.
    pub fn start_pos(&self) -> (r: P)
        ensures
            r == self.start_pos,
    {
        self.start_pos
    }

    /// Where the arc ends.
    pub fn end_pos(&self) -> (r: P)
        ensures
            r == self.end_pos,
    {
        self.end_pos
    }
}

impl<S: Copy> MinorArc<LatLongPos<S>> {
    /// The minor arc from `start_pos` to `end_pos`, whose normal is computed as
    /// `normal` (the cross product of their n-vectors).
    pub fn from_lat_longs(start_pos: LatLongPos<S>, end_pos: LatLongPos<S>, normal: Vec3Bits) -> (r:
        Result<MinorArc<LatLongPos<S>>, Error>)
        ensures
            match arc_normal_spec(start_pos.nvector, end_pos.nvector, normal) {
                Ok(n) => r == Ok::<MinorArc<LatLongPos<S>>, Error>(MinorArc { start_pos, end_pos, normal: n }),
                Err(e) => r == Err::<MinorArc<LatLongPos<S>>, Error>(e),
            },
    {
        match arc_normal(start_pos.nvector, end_pos.nvector, normal) {
            Ok(n) => Ok(MinorArc { start_pos, end_pos, normal: n }),
            Err(e) => Err(e),
        }
    }

    /// The intersection with `other` (see `intersection_spec`), in the model
    /// of this arc's start: `cross` is the cross product of the two normals,
    /// `near` that product rounded to the angle resolution, `near_dot_mid` its
    /// dot product with the sum of the four ends, and `far` its antipode
    /// rounded.
    pub fn intersection_with(
        &self,
        other: MinorArc<LatLongPos<S>>,
        cross: Vec3Bits,
        near: Candidate,
        near_dot_mid: u64,
        far: Candidate,
    ) -> (r: Result<LatLongPos<S>, Error>)
        ensures
            match intersection_spec(cross, near, near_dot_mid, far) {
                Ok(i) => r == Ok::<LatLongPos<S>, Error>(LatLongPos { nvector: i, model: self.start_pos.model }),
                Err(e) => r == Err::<LatLongPos<S>, Error>(e),
            },
    {
        match intersection(cross, near, near_dot_mid, far) {
            Ok(i) => Ok(LatLongPos { nvector: i, model: self.start_pos.model }),
            Err(e) => Err(e),
        }
    }
}

impl<S: Copy> MinorArc<NvectorPos<S>> {
    /// The minor arc from `start_pos` to `end_pos`, whose normal is computed as
    /// `normal` (the cross product of their n-vectors).
    pub fn from_nvectors(start_pos: NvectorPos<S>, end_pos: NvectorPos<S>, normal: Vec3Bits) -> (r:
        Result<MinorArc<NvectorPos<S>>, Error>)
        ensures
            match arc_normal_spec(start_pos.nvector, end_pos.nvector, normal) {
                Ok(n) => r == Ok::<MinorArc<NvectorPos<S>>, Error>(MinorArc { start_pos, end_pos, normal: n }),
                Err(e) => r == Err::<MinorArc<NvectorPos<S>>, Error>(e),
            },
    {
        match arc_normal(start_pos.nvector, end_pos.nvector, normal) {
            Ok(n) => Ok(MinorArc { start_pos, end_pos, normal: n }),
            Err(e) => Err(e),
        }
    }

    /// The intersection with `other`, in the model of this arc's start. The
    /// candidates are not rounded here: the near one is `cross` itself (the
    /// cross product of the two normals) and the far one its antipode.
    /// `near_dot_mid` is the dot product of `cross` with the sum of the four
    /// ends, and `near_on_a`, `near_on_b`, `far_on_a`, `far_on_b` are the
    /// square distances of the candidates to the ends of this arc and of
    /// `other` (see `intersection_spec`).
    pub fn intersection_with(
        &self,
        other: MinorArc<NvectorPos<S>>,
        cross: Vec3Bits,
        near_on_a: ArcDistances,
        near_on_b: ArcDistances,
        near_dot_mid: u64,
        far_on_a: ArcDistances,
        far_on_b: ArcDistances,
    ) -> (r: Result<NvectorPos<S>, Error>)
        ensures
            match intersection_spec(
                cross,
                Candidate { pos: cross, on_a: near_on_a, on_b: near_on_b },
                near_dot_mid,
                Candidate { pos: opposite(cross), on_a: far_on_a, on_b: far_on_b },
            ) {
                Ok(i) => r == Ok::<NvectorPos<S>, Error>(NvectorPos { nvector: i, model: self.start_pos.model }),
                Err(e) => r == Err::<NvectorPos<S>, Error>(e),
            },
    {
        let near = Candidate { pos: cross, on_a: near_on_a, on_b: near_on_b };
        let far = Candidate { pos: cross.antipode(), on_a: far_on_a, on_b: far_on_b };
        match intersection(cross, near, near_dot_mid, far) {
            Ok(i) => Ok(NvectorPos { nvector: i, model: self.start_pos.model }),
            Err(e) => Err(e),
        }
    }
}

} // verus!
