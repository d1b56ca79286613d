use jord::error::Error;
use jord::great_circle::{
    arc_normal, intersection, is_on_minor_arc, mean, normal_intersection, ArcDistances, Candidate,
    GreatCircle, LatLongPos, MinorArc, NvectorPos,
};
use jord::vec3::Vec3Bits;

fn bits(v: [f64; 3]) -> Vec3Bits {
    Vec3Bits::new(v[0].to_bits(), v[1].to_bits(), v[2].to_bits())
}

fn nvector(lat_degrees: f64, lon_degrees: f64) -> [f64; 3] {
    let lat = lat_degrees.to_radians();
    let lon = lon_degrees.to_radians();
    [lat.cos() * lon.cos(), lat.cos() * lon.sin(), lat.sin()]
}

fn neg(v: [f64; 3]) -> [f64; 3] {
    [0.0 + -v[0], 0.0 + -v[1], 0.0 + -v[2]]
}

fn cross(a: [f64; 3], b: [f64; 3]) -> [f64; 3] {
    [
        a[1] * b[2] - a[2] * b[1],
        a[2] * b[0] - a[0] * b[2],
        a[0] * b[1] - a[1] * b[0],
    ]
}

fn add(a: [f64; 3], b: [f64; 3]) -> [f64; 3] {
    [a[0] + b[0], a[1] + b[1], a[2] + b[2]]
}

fn npos(v: [f64; 3]) -> NvectorPos<u8> {
    NvectorPos::new(bits(v), 7)
}

fn llpos(v: [f64; 3]) -> LatLongPos<u8> {
    LatLongPos::new(bits(v), 7)
}

#[test]
fn arc_normal_refuses_coincident_positions() {
    let v = nvector(53.3206, -1.7297);
    assert_eq!(
        arc_normal(bits(v), bits(v), bits(cross(v, v))),
        Err(Error::CoincidentalPositions)
    );
}

#[test]
fn arc_normal_refuses_antipodal_positions() {
    let v = nvector(53.3206, -1.7297);
    assert_eq!(
        arc_normal(bits(v), bits(neg(v)), bits(cross(v, neg(v)))),
        Err(Error::AntipodalPositions)
    );
}

#[test]
fn arc_normal_gives_the_cross_product() {
    let v1 = nvector(53.3206, -1.7297);
    let v2 = nvector(53.1887, 0.1334);
    let n = bits(cross(v1, v2));
    assert_eq!(arc_normal(bits(v1), bits(v2), n), Ok(n));
}

#[test]
fn arc_normal_treats_negative_zero_as_zero() {
    let v1 = [1.0, 0.0, 0.0];
    let v2 = [1.0, -0.0, 0.0];
    assert_eq!(
        arc_normal(bits(v1), bits(v2), Vec3Bits::zero()),
        Err(Error::CoincidentalPositions)
    );
    // the antipode of the north pole is the south pole, whatever the sign of its zeros
    assert_eq!(
        arc_normal(bits([0.0, 0.0, 1.0]), bits([0.0, 0.0, -1.0]), Vec3Bits::zero()),
        Err(Error::AntipodalPositions)
    );
}

#[test]
fn arc_normal_with_nan_equals_nothing() {
    let v = [f64::NAN, 0.0, 1.0];
    let n = bits([1.0, 2.0, 3.0]);
    assert_eq!(arc_normal(bits(v), bits(v), n), Ok(n));
}

#[test]
fn great_circle_from_nvectors() {
    let v1 = nvector(0.0, -10.0);
    let v2 = nvector(0.0, 10.0);
    let n = bits(cross(v1, v2));
    let gc = GreatCircle::from_nvectors(npos(v1), npos(v2), n).unwrap();
    assert_eq!(gc.normal, n);
    assert_eq!(gc.position.nvector, bits(v1));
    assert_eq!(
        GreatCircle::from_nvectors(npos(v1), npos(v1), n).unwrap_err(),
        Error::CoincidentalPositions
    );
    assert_eq!(
        GreatCircle::from_nvectors(npos(v1), npos(neg(v1)), n).unwrap_err(),
        Error::AntipodalPositions
    );
}

#[test]
fn great_circle_from_lat_longs() {
    let v1 = nvector(53.3206, -1.7297);
    let v2 = nvector(53.1887, 0.1334);
    let n = bits(cross(v1, v2));
    let gc = GreatCircle::from_lat_longs(llpos(v1), llpos(v2), n).unwrap();
    assert_eq!(gc.normal, n);
    assert_eq!(gc.position.nvector, bits(v1));
    assert_eq!(
        GreatCircle::from_lat_longs(llpos(v2), llpos(v2), n).unwrap_err(),
        Error::CoincidentalPositions
    );
}

#[test]
fn great_circle_from_bearing_keeps_its_arguments() {
    let v = nvector(10.0, 20.0);
    let n = bits([0.5, 0.25, 0.125]);
    let gc = GreatCircle::from_nvector_bearing_degrees(npos(v), n);
    assert_eq!(gc.normal, n);
    assert_eq!(gc.position.nvector, bits(v));
    let gc2 = GreatCircle::from_lat_long_bearing(llpos(v), n);
    assert_eq!(gc2.normal, n);
    assert_eq!(gc2.position.nvector, bits(v));
}

#[test]
fn great_circle_intersections() {
    let a1 = nvector(0.0, -10.0);
    let a2 = nvector(0.0, 10.0);
    let b1 = nvector(-10.0, 0.0);
    let b2 = nvector(10.0, 0.0);
    let ga = GreatCircle::from_nvectors(npos(a1), npos(a2), bits(cross(a1, a2))).unwrap();
    let gb = GreatCircle::from_nvectors(npos(b1), npos(b2), bits(cross(b1, b2))).unwrap();
    let i = cross(cross(a1, a2), cross(b1, b2));
    let (p, q) = ga.intersections_with(gb, bits(i)).unwrap();
    assert_eq!(p.nvector, bits(i));
    assert_eq!(q.nvector, bits(i).antipode());
    let expected = bits(neg(i));
    assert_eq!((q.nvector.x, q.nvector.y, q.nvector.z), (expected.x, expected.y, expected.z));
    assert!(q.nvector.same_as(&bits(neg(i))));
    assert_eq!(p.model, 7);
    // a circle meets itself everywhere
    let same = cross(cross(a1, a2), cross(a1, a2));
    assert_eq!(ga.intersections_with(ga, bits(same)).unwrap_err(), Error::CoincidentalPath);
    let la = GreatCircle::from_lat_longs(llpos(a1), llpos(a2), bits(cross(a1, a2))).unwrap();
    assert_eq!(la.intersections_with(la, bits(same)), Err(Error::CoincidentalPath));
    let (l, m) = la.intersections_with(la, bits(i)).unwrap();
    assert_eq!(l, LatLongPos::new(bits(i), 7));
    assert_eq!(m, LatLongPos::new(bits(i).antipode(), 7));
}

#[test]
fn normal_intersection_of_opposite_normals() {
    let n = [0.0, 0.0, 1.0];
    assert_eq!(normal_intersection(bits(cross(n, neg(n)))), Err(Error::CoincidentalPath));
    assert_eq!(normal_intersection(bits([0.0, -0.0, 0.0])), Err(Error::CoincidentalPath));
    assert_eq!(normal_intersection(bits([0.0, 1e-300, 0.0])), Ok(bits([0.0, 1e-300, 0.0])));
}

#[test]
fn mean_of_no_position() {
    let ps: Vec<NvectorPos<u8>> = Vec::new();
    assert_eq!(NvectorPos::from_mean(&ps, Vec3Bits::zero()).unwrap_err(), Error::NotEnoughPositions);
    let ls: Vec<LatLongPos<u8>> = Vec::new();
    assert_eq!(
        LatLongPos::from_mean(&ls, &[], Vec3Bits::zero()),
        Err(Error::NotEnoughPositions)
    );
}

#[test]
fn mean_of_one_position_is_that_position() {
    let v = nvector(45.0, 45.0);
    let m = NvectorPos::from_mean(&[npos(v)], bits([9.0, 9.0, 9.0])).unwrap();
    assert_eq!(m.nvector, bits(v));
    assert_eq!(m.model, 7);
    assert_eq!(
        LatLongPos::from_mean(&[llpos(v)], &[bits(neg(v))], bits([9.0, 9.0, 9.0])),
        Ok(llpos(v))
    );
}

#[test]
fn mean_of_positions_is_their_sum() {
    let v1 = nvector(10.0, 10.0);
    let v2 = nvector(20.0, 10.0);
    let v3 = nvector(15.0, 20.0);
    let sum = add(add(v1, v2), v3);
    let m = NvectorPos::from_mean(&[npos(v1), npos(v2), npos(v3)], bits(sum)).unwrap();
    assert_eq!(m.nvector, bits(sum));
    assert_eq!(
        LatLongPos::from_mean(
            &[llpos(v1), llpos(v2), llpos(v3)],
            &[bits(neg(v1)), bits(neg(v2)), bits(neg(v3))],
            bits(sum)
        ),
        Ok(llpos(sum))
    );
}

#[test]
fn mean_refuses_antipodal_positions() {
    let v1 = nvector(10.0, 10.0);
    let v2 = nvector(20.0, 10.0);
    let ps = [npos(v1), npos(v2), npos(neg(v1))];
    assert_eq!(
        NvectorPos::from_mean(&ps, Vec3Bits::zero()).unwrap_err(),
        Error::AntipodalPositions
    );
    // lat/long positions compare with the rounded antipodes they are given
    let ls = [llpos(v1), llpos(v2)];
    assert_eq!(
        LatLongPos::from_mean(&ls, &[bits(v2), bits(neg(v2))], Vec3Bits::zero()),
        Err(Error::AntipodalPositions)
    );
    assert_eq!(
        mean(&[bits(v1), bits(v2)], &[bits(neg(v1)), bits(neg(v2))], bits(add(v1, v2))),
        Ok(bits(add(v1, v2)))
    );
}

#[test]
fn destination_at_zero_distance_is_the_start() {
    let v = nvector(30.0, 30.0);
    let moved = bits(nvector(31.0, 30.0));
    let p = npos(v);
    assert_eq!(p.destination_pos(0.0f64.to_bits(), moved).nvector, bits(v));
    assert_eq!(p.destination_pos((-0.0f64).to_bits(), moved).nvector, bits(v));
    assert_eq!(p.destination_pos(1000.0f64.to_bits(), moved).nvector, moved);
    assert_eq!(p.destination_pos(f64::NAN.to_bits(), moved).nvector, moved);
    let l = llpos(v);
    assert_eq!(l.destination_pos(0.0f64.to_bits(), moved), l);
    assert_eq!(l.destination_pos(1.0f64.to_bits(), moved), LatLongPos::new(moved, 7));
}

#[test]
fn bearings_need_distinct_positions() {
    let v1 = nvector(30.0, 30.0);
    let v2 = nvector(31.0, 30.0);
    let b = 12.5f64.to_bits();
    assert_eq!(npos(v1).initial_bearing_degrees_to(npos(v2), b), Ok(b));
    assert_eq!(npos(v1).final_bearing_degrees_to(npos(v2), b), Ok(b));
    assert_eq!(
        npos(v1).initial_bearing_degrees_to(npos(v1), b),
        Err(Error::CoincidentalPositions)
    );
    assert_eq!(
        npos(v1).final_bearing_degrees_to(npos(v1), b),
        Err(Error::CoincidentalPositions)
    );
    assert_eq!(llpos(v1).initial_bearing_to(llpos(v2), "north"), Ok("north"));
    assert_eq!(llpos(v1).final_bearing_to(llpos(v2), 3i64), Ok(3i64));
    assert_eq!(
        llpos(v2).initial_bearing_to(llpos(v2), 3i64),
        Err(Error::CoincidentalPositions)
    );
    assert_eq!(
        llpos(v2).final_bearing_to(llpos(v2), 3i64),
        Err(Error::CoincidentalPositions)
    );
    // antipodal positions do have a bearing
    assert_eq!(npos(v1).initial_bearing_degrees_to(npos(neg(v1)), b), Ok(b));
}

#[test]
fn intermediate_fraction_must_lie_in_unit_interval() {
    let v1 = nvector(0.0, 0.0);
    let v2 = nvector(0.0, 10.0);
    let w = bits(nvector(0.0, 5.0));
    let p = npos(v1);
    for f in [0.0, -0.0, 0.5, 1.0, f64::MIN_POSITIVE, f64::NAN].iter() {
        let r = p.intermediate_pos_to(npos(v2), f.to_bits(), w).unwrap();
        assert_eq!(r.nvector, w);
        assert_eq!(llpos(v1).intermediate_pos_to(llpos(v2), f.to_bits(), w), Ok(LatLongPos::new(w, 7)));
    }
    for f in [-0.001, 1.0000001, -1.0, 2.0, f64::INFINITY, f64::NEG_INFINITY].iter() {
        assert_eq!(
            p.intermediate_pos_to(npos(v2), f.to_bits(), w).unwrap_err(),
            Error::OutOfRange
        );
        assert_eq!(
            llpos(v1).intermediate_pos_to(llpos(v2), f.to_bits(), w),
            Err(Error::OutOfRange)
        );
    }
}

#[test]
fn turn_needs_both_legs() {
    let from = nvector(0.0, 0.0);
    let at = nvector(0.0, 10.0);
    let to = nvector(10.0, 10.0);
    let d = 90.0f64.to_bits();
    assert_eq!(npos(at).turn_degrees(npos(from), npos(to), d), Ok(d));
    assert_eq!(
        npos(at).turn_degrees(npos(at), npos(to), d),
        Err(Error::CoincidentalPositions)
    );
    assert_eq!(
        npos(at).turn_degrees(npos(from), npos(at), d),
        Err(Error::CoincidentalPositions)
    );
    assert_eq!(
        npos(at).turn_degrees(npos(neg(at)), npos(to), d),
        Err(Error::AntipodalPositions)
    );
    assert_eq!(
        npos(at).turn_degrees(npos(from), npos(neg(at)), d),
        Err(Error::AntipodalPositions)
    );
    // the first leg is looked at first
    assert_eq!(
        npos(at).turn_degrees(npos(at), npos(neg(at)), d),
        Err(Error::CoincidentalPositions)
    );
    assert_eq!(llpos(at).turn(llpos(from), llpos(to), -1i32), Ok(-1i32));
    assert_eq!(
        llpos(at).turn(llpos(neg(at)), llpos(to), -1i32),
        Err(Error::AntipodalPositions)
    );
}

fn distances(d_start: f64, d_end: f64, chord: f64) -> ArcDistances {
    ArcDistances { to_start: d_start.to_bits(), to_end: d_end.to_bits(), chord: chord.to_bits() }
}

#[test]
fn minor_arc_membership() {
    assert!(is_on_minor_arc(distances(1.0, 1.0, 2.0)));
    assert!(is_on_minor_arc(distances(2.0, 0.0, 2.0)));
    assert!(!is_on_minor_arc(distances(2.5, 0.5, 2.0)));
    assert!(!is_on_minor_arc(distances(0.5, 2.5, 2.0)));
    assert!(!is_on_minor_arc(distances(f64::NAN, 0.5, 2.0)));
}

#[test]
fn minor_arc_intersection_picks_the_near_candidate() {
    let inside = distances(1.0, 1.0, 2.0);
    let outside = distances(3.0, 1.0, 2.0);
    let i = bits([0.0, 0.0, 1.0]);
    let a = bits([0.0, 0.0, -1.0]);
    let near = Candidate { pos: i, on_a: inside, on_b: inside };
    let far = Candidate { pos: a, on_a: outside, on_b: inside };
    assert_eq!(intersection(i, near, 0.5f64.to_bits(), far), Ok(i));
    assert_eq!(intersection(i, near, 0.0f64.to_bits(), far), Err(Error::NoIntersection));
    assert_eq!(intersection(i, near, (-0.5f64).to_bits(), far), Err(Error::NoIntersection));
    let far_inside = Candidate { pos: a, on_a: inside, on_b: inside };
    assert_eq!(intersection(i, near, (-0.5f64).to_bits(), far_inside), Ok(a));
    assert_eq!(intersection(i, near, f64::NAN.to_bits(), far_inside), Ok(a));
    assert_eq!(intersection(Vec3Bits::zero(), near, 0.5f64.to_bits(), far), Err(Error::CoincidentalPath));
}

#[test]
fn minor_arcs() {
    let s = nvector(0.0, -10.0);
    let e = nvector(0.0, 10.0);
    let ma = MinorArc::from_nvectors(npos(s), npos(e), bits(cross(s, e))).unwrap();
    assert_eq!(ma.start_pos().nvector, bits(s));
    assert_eq!(ma.end_pos().nvector, bits(e));
    assert_eq!(ma.normal, bits(cross(s, e)));
    assert_eq!(
        MinorArc::from_nvectors(npos(s), npos(s), bits(cross(s, s))).unwrap_err(),
        Error::CoincidentalPositions
    );
    let la = MinorArc::from_lat_longs(llpos(s), llpos(e), bits(cross(s, e))).unwrap();
    assert_eq!(la.start_pos().nvector, bits(s));
    assert_eq!(
        MinorArc::from_lat_longs(llpos(s), llpos(neg(s)), bits(cross(s, e))).unwrap_err(),
        Error::AntipodalPositions
    );
    let inside = distances(1.0, 1.0, 2.0);
    let near = Candidate { pos: bits([1.0, 0.0, 0.0]), on_a: inside, on_b: inside };
    let far = Candidate { pos: bits([-1.0, 0.0, 0.0]), on_a: inside, on_b: inside };
    let outside = distances(3.0, 1.0, 2.0);
    let c = bits([0.0, 0.0, 1.0]);
    let r = ma.intersection_with(ma, c, inside, inside, 1.0f64.to_bits(), inside, inside).unwrap();
    assert_eq!(r.nvector, c);
    assert_eq!(r.model, 7);
    // the far candidate is the antipode of the cross product, with +0.0 zeros
    let r = ma.intersection_with(ma, c, inside, inside, 0.0f64.to_bits(), inside, inside).unwrap();
    assert_eq!(r.nvector.x, 0.0f64.to_bits());
    assert_eq!(r.nvector.y, 0.0f64.to_bits());
    assert_eq!(r.nvector.z, (-1.0f64).to_bits());
    assert_eq!(
        ma.intersection_with(ma, c, inside, inside, 0.0f64.to_bits(), outside, inside).unwrap_err(),
        Error::NoIntersection
    );
    assert_eq!(
        la.intersection_with(la, bits([0.0, 0.0, 1.0]), near, (-1.0f64).to_bits(), far),
        Ok(LatLongPos::new(bits([-1.0, 0.0, 0.0]), 7))
    );
}

#[test]
fn circles_and_arcs_compare_by_fields() {
    let s = nvector(0.0, -10.0);
    let e = nvector(0.0, 10.0);
    let n = bits(cross(s, e));
    let g1 = GreatCircle::from_nvectors(npos(s), npos(e), n).unwrap();
    let g2 = GreatCircle::from_nvector_bearing_degrees(npos(s), n);
    assert_eq!(g1, g2);
    assert_ne!(g1, GreatCircle::from_nvector_bearing_degrees(npos(e), n));
    let a1 = MinorArc::from_lat_longs(llpos(s), llpos(e), n).unwrap();
    let a2 = MinorArc::from_lat_longs(llpos(s), llpos(e), n).unwrap();
    assert_eq!(a1, a2);
    assert_ne!(a1, MinorArc::from_lat_longs(llpos(e), llpos(s), n).unwrap());
}

#[test]
fn equality_compares_values() {
    let v = nvector(0.0, 10.0);
    let nan = bits([f64::NAN, 0.0, 0.0]);
    // a great circle whose normal is not a number equals nothing, not even itself
    let g = GreatCircle::from_nvector_bearing_degrees(npos(v), nan);
    assert!(g != g);
    let z1 = NvectorPos::new(bits([0.0, 0.0, 1.0]), 7u8);
    let z2 = NvectorPos::new(bits([-0.0, 0.0, 1.0]), 7u8);
    assert_eq!(z1, z2);
    assert_ne!(z1, NvectorPos::new(bits([0.0, 0.0, 1.0]), 8u8));
    assert_eq!(LatLongPos::new(bits([-0.0, 1.0, 0.0]), 1u8), LatLongPos::new(bits([0.0, 1.0, 0.0]), 1u8));
}
