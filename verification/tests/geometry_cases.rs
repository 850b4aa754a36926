use chemrust_nasl::geometry::approx::any_closer;
use chemrust_nasl::{
    cmp_radius_circle, noncoplanar_circle_circle_intersect, CircleCircleIntersection,
    CircleCircleRelationship, CircleLineIntersection, CircleSphereIntersection, CoplanarCase,
    FloatEq, FloatOrdering, PlaneCut, PlanePlaneIntersection, PointToSphere,
    SphereSphereRelationship,
};

type P = [f64; 3];
type C = (P, f64);

const LESS: FloatOrdering = FloatOrdering::Less;
const EQUAL: FloatOrdering = FloatOrdering::Equal;
const GREATER: FloatOrdering = FloatOrdering::Greater;

fn approx_cmp(a: f64, b: f64) -> FloatOrdering {
    if a - b > 1.0e-5 {
        FloatOrdering::Greater
    } else if a - b < -1.0e-5 {
        FloatOrdering::Less
    } else {
        FloatOrdering::Equal
    }
}

#[test]
fn any_closer_finds_a_less() {
    assert!(!any_closer(&vec![]));
    assert!(!any_closer(&vec![EQUAL, GREATER, EQUAL]));
    assert!(any_closer(&vec![GREATER, LESS]));
}

#[test]
fn spheres_too_far_away() {
    for d in [LESS, EQUAL, GREATER] {
        for z in [LESS, EQUAL, GREATER] {
            assert_eq!(
                SphereSphereRelationship::determine(GREATER, d, z),
                SphereSphereRelationship::TooFarAway
            );
        }
    }
}

#[test]
fn spheres_touch_outside() {
    assert_eq!(
        SphereSphereRelationship::determine(EQUAL, GREATER, EQUAL),
        SphereSphereRelationship::OutsideCut
    );
}

#[test]
fn spheres_inside_cases() {
    assert_eq!(
        SphereSphereRelationship::determine(LESS, LESS, GREATER),
        SphereSphereRelationship::InsideOutOfReach
    );
    assert_eq!(
        SphereSphereRelationship::determine(LESS, EQUAL, GREATER),
        SphereSphereRelationship::InsideCut
    );
    assert_eq!(
        SphereSphereRelationship::determine(LESS, EQUAL, EQUAL),
        SphereSphereRelationship::Overlaps
    );
    assert_eq!(
        SphereSphereRelationship::determine(LESS, GREATER, EQUAL),
        SphereSphereRelationship::Intersect
    );
}

#[test]
fn two_spheres_of_radius_root_two_at_distance_two_cross() {
    let d = 2.0_f64.sqrt();
    let gap = 4.0;
    let sum = (d + d) * (d + d);
    let diff = 0.0;
    assert_eq!(
        SphereSphereRelationship::determine(
            approx_cmp(gap, sum),
            approx_cmp(gap, diff),
            approx_cmp(diff, 0.0)
        ),
        SphereSphereRelationship::Intersect
    );
}

#[test]
fn two_spheres_at_one_place_overlap() {
    let d = 1.3_f64;
    let gap = 0.0;
    let sum = (d + d) * (d + d);
    let diff = 0.0;
    assert_eq!(
        SphereSphereRelationship::determine(
            approx_cmp(gap, sum),
            approx_cmp(gap, diff),
            approx_cmp(diff, 0.0)
        ),
        SphereSphereRelationship::Overlaps
    );
}

#[test]
fn parallel_planes_are_one_plane_where_the_offsets_agree() {
    assert_eq!(PlanePlaneIntersection::<u8>::of_parallel(EQUAL), PlanePlaneIntersection::Same);
    assert_eq!(PlanePlaneIntersection::<u8>::of_parallel(LESS), PlanePlaneIntersection::Parallel);
    assert_eq!(
        PlanePlaneIntersection::<u8>::of_parallel(GREATER),
        PlanePlaneIntersection::Parallel
    );
}

#[test]
fn circles_relate_as_their_planes_do() {
    assert_eq!(
        CircleCircleRelationship::<u8>::determine(PlanePlaneIntersection::Same),
        CircleCircleRelationship::Coplanar
    );
    assert_eq!(
        CircleCircleRelationship::<u8>::determine(PlanePlaneIntersection::Parallel),
        CircleCircleRelationship::ParallelPlane
    );
    assert_eq!(
        CircleCircleRelationship::determine(PlanePlaneIntersection::Intersect(7_u8)),
        CircleCircleRelationship::PlaneIntersect(7_u8)
    );
}

#[test]
fn point_against_sphere() {
    assert_eq!(PointToSphere::from_ordering(LESS), PointToSphere::Inside);
    assert_eq!(PointToSphere::from_ordering(EQUAL), PointToSphere::OnSurface);
    assert_eq!(PointToSphere::from_ordering(GREATER), PointToSphere::Outside);
}

#[test]
fn coplanar_same_centre() {
    assert_eq!(CoplanarCase::determine(EQUAL, EQUAL, LESS, GREATER), CoplanarCase::Overlap);
    assert_eq!(CoplanarCase::determine(EQUAL, LESS, LESS, LESS), CoplanarCase::FirstInSecond);
    assert_eq!(CoplanarCase::determine(EQUAL, GREATER, LESS, LESS), CoplanarCase::SecondInFirst);
}

#[test]
fn coplanar_apart_centres() {
    assert_eq!(CoplanarCase::determine(GREATER, EQUAL, EQUAL, GREATER), CoplanarCase::TouchOutside);
    assert_eq!(CoplanarCase::determine(GREATER, EQUAL, GREATER, GREATER), CoplanarCase::Apart);
    assert_eq!(CoplanarCase::determine(GREATER, LESS, LESS, LESS), CoplanarCase::Nested);
    assert_eq!(CoplanarCase::determine(GREATER, LESS, LESS, GREATER), CoplanarCase::Cross);
    assert_eq!(
        CoplanarCase::determine(GREATER, LESS, LESS, EQUAL),
        CoplanarCase::TouchInsideSecond
    );
    assert_eq!(
        CoplanarCase::determine(GREATER, GREATER, LESS, EQUAL),
        CoplanarCase::TouchInsideFirst
    );
    assert_eq!(
        CoplanarCase::determine(GREATER, EQUAL, LESS, EQUAL),
        CoplanarCase::TouchInsideFirst
    );
}

#[test]
fn coplanar_case_is_the_same_from_both_sides() {
    for z in [LESS, EQUAL, GREATER] {
        for r in [LESS, EQUAL, GREATER] {
            for s in [LESS, EQUAL, GREATER] {
                for d in [LESS, EQUAL, GREATER] {
                    let one = CoplanarCase::determine(z, r, s, d);
                    let turned = match r {
                        FloatOrdering::Less => GREATER,
                        FloatOrdering::Equal => EQUAL,
                        FloatOrdering::Greater => LESS,
                    };
                    let other = CoplanarCase::determine(z, turned, s, d);
                    let mirrored = match one {
                        CoplanarCase::FirstInSecond => CoplanarCase::SecondInFirst,
                        CoplanarCase::SecondInFirst => CoplanarCase::FirstInSecond,
                        CoplanarCase::TouchInsideFirst if r != EQUAL => {
                            CoplanarCase::TouchInsideSecond
                        }
                        CoplanarCase::TouchInsideSecond => CoplanarCase::TouchInsideFirst,
                        same => same,
                    };
                    assert_eq!(other, mirrored);
                }
            }
        }
    }
}

#[test]
fn larger_circle_comes_first() {
    assert_eq!(cmp_radius_circle(1_u8, 2_u8, LESS), (2, 1));
    assert_eq!(cmp_radius_circle(1_u8, 2_u8, EQUAL), (1, 2));
    assert_eq!(cmp_radius_circle(1_u8, 2_u8, GREATER), (1, 2));
}

fn pairing(
    first: CircleLineIntersection<P>,
    second: CircleLineIntersection<P>,
    same: [FloatEq; 4],
) -> CircleCircleIntersection<P, C> {
    noncoplanar_circle_circle_intersect(first, second, same[0], same[1], same[2], same[3])
}

const A: P = [1.0, 0.0, 0.0];
const B: P = [0.0, 1.0, 0.0];
const Q: P = [0.0, 0.0, 1.0];
const R: P = [1.0, 1.0, 1.0];
const Y: FloatEq = FloatEq::Eq;
const N: FloatEq = FloatEq::NotEq;

#[test]
fn noncoplanar_empty_line_hit_gives_nothing() {
    assert_eq!(
        pairing(CircleLineIntersection::Empty, CircleLineIntersection::Double(A, B), [Y; 4]),
        CircleCircleIntersection::Empty
    );
    assert_eq!(
        pairing(CircleLineIntersection::Single(A), CircleLineIntersection::Empty, [Y; 4]),
        CircleCircleIntersection::Empty
    );
}

#[test]
fn noncoplanar_single_hits() {
    assert_eq!(
        pairing(CircleLineIntersection::Single(A), CircleLineIntersection::Single(Q), [Y, N, N, N]),
        CircleCircleIntersection::Single(A)
    );
    assert_eq!(
        pairing(CircleLineIntersection::Single(A), CircleLineIntersection::Single(Q), [N, Y, Y, Y]),
        CircleCircleIntersection::Empty
    );
    assert_eq!(
        pairing(
            CircleLineIntersection::Single(A),
            CircleLineIntersection::Double(Q, R),
            [N, Y, N, N]
        ),
        CircleCircleIntersection::Single(A)
    );
    assert_eq!(
        pairing(
            CircleLineIntersection::Single(A),
            CircleLineIntersection::Double(Q, R),
            [N, N, Y, Y]
        ),
        CircleCircleIntersection::Empty
    );
    assert_eq!(
        pairing(
            CircleLineIntersection::Double(A, B),
            CircleLineIntersection::Single(Q),
            [N, N, Y, N]
        ),
        CircleCircleIntersection::Single(Q)
    );
    assert_eq!(
        pairing(
            CircleLineIntersection::Double(A, B),
            CircleLineIntersection::Single(Q),
            [N, Y, N, Y]
        ),
        CircleCircleIntersection::Empty
    );
}

#[test]
fn noncoplanar_double_hits() {
    let first = CircleLineIntersection::Double(A, B);
    let second = CircleLineIntersection::Double(Q, R);
    assert_eq!(pairing(first, second, [Y, N, N, Y]), CircleCircleIntersection::Double(A, B));
    assert_eq!(pairing(first, second, [Y, N, N, N]), CircleCircleIntersection::Single(A));
    assert_eq!(pairing(first, second, [N, N, N, Y]), CircleCircleIntersection::Single(B));
    assert_eq!(pairing(first, second, [N, Y, Y, N]), CircleCircleIntersection::Double(A, B));
    assert_eq!(pairing(first, second, [N, Y, N, N]), CircleCircleIntersection::Single(A));
    assert_eq!(pairing(first, second, [N, N, Y, N]), CircleCircleIntersection::Single(B));
    assert_eq!(pairing(first, second, [N, N, N, N]), CircleCircleIntersection::Empty);
}

#[test]
fn plane_cut_of_a_sphere() {
    assert_eq!(PlaneCut::from_ordering(GREATER), PlaneCut::Misses);
    assert_eq!(PlaneCut::from_ordering(EQUAL), PlaneCut::Grazes);
    assert_eq!(PlaneCut::from_ordering(LESS), PlaneCut::Slices);
}

#[test]
fn grazing_plane() {
    assert_eq!(
        CircleSphereIntersection::<P, C>::grazing(LESS, A),
        CircleSphereIntersection::SphereInCircle
    );
    assert_eq!(
        CircleSphereIntersection::<P, C>::grazing(EQUAL, A),
        CircleSphereIntersection::Single(A)
    );
    assert_eq!(CircleSphereIntersection::<P, C>::grazing(GREATER, A), CircleSphereIntersection::Zero);
}

#[test]
fn slicing_plane() {
    let c1: C = (A, 1.0);
    let c2: C = (B, 2.0);
    assert_eq!(
        CircleSphereIntersection::<P, C>::from_coplanar(CircleCircleIntersection::Empty, false),
        CircleSphereIntersection::Zero
    );
    assert_eq!(
        CircleSphereIntersection::<P, C>::from_coplanar(CircleCircleIntersection::Single(A), true),
        CircleSphereIntersection::Single(A)
    );
    assert_eq!(
        CircleSphereIntersection::<P, C>::from_coplanar(
            CircleCircleIntersection::Double(A, B),
            false
        ),
        CircleSphereIntersection::Double(A, B)
    );
    assert_eq!(
        CircleSphereIntersection::<P, C>::from_coplanar(CircleCircleIntersection::Overlap(c1), false),
        CircleSphereIntersection::Circle(c1)
    );
    assert_eq!(
        CircleSphereIntersection::<P, C>::from_coplanar(
            CircleCircleIntersection::Contains(c1, c2),
            true
        ),
        CircleSphereIntersection::InsideSphere
    );
    assert_eq!(
        CircleSphereIntersection::<P, C>::from_coplanar(
            CircleCircleIntersection::Contains(c1, c2),
            false
        ),
        CircleSphereIntersection::SphereInCircle
    );
}

fn count(outcome: CircleCircleIntersection<P, C>) -> usize {
    match outcome {
        CircleCircleIntersection::Empty => 0,
        CircleCircleIntersection::Single(_) => 1,
        CircleCircleIntersection::Double(_, _) => 2,
        _ => 3,
    }
}

#[test]
fn noncoplanar_circles_share_as_much_from_both_sides() {
    let lines = [
        CircleLineIntersection::Empty,
        CircleLineIntersection::Single(A),
        CircleLineIntersection::Double(A, B),
    ];
    for first in lines {
        for second in lines {
            for bits in 0..16_u8 {
                let pick = |b: u8| if bits & (1 << b) != 0 { Y } else { N };
                let same = [pick(0), pick(1), pick(2), pick(3)];
                let turned = [same[0], same[2], same[1], same[3]];
                assert_eq!(
                    count(pairing(first, second, same)),
                    count(pairing(second, first, turned))
                );
            }
        }
    }
}
