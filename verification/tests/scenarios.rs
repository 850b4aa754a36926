use chemrust_nasl::{
    check_circles, fresh_pairs, search_single_point, search_sites, sphere_check,
    sphere_neighbour_check, CircleCheckResult, CircleCircleIntersection, CircleSphereIntersection,
    CoordCircle, CoordResult, CoplanarCase, DelegatePoint, FloatEq, FloatOrdering,
    MultiCoordPoint, PlaneCut, SphereCheckResult, SphereSphereRelationship, SphereSphereResult,
};

type P = [f64; 3];

#[derive(Debug, Clone, Copy, PartialEq)]
struct Circle {
    center: P,
    radius: f64,
    normal: P,
}

#[derive(Debug, Clone, Copy, PartialEq)]
struct Sphere {
    center: P,
    radius: f64,
}

type Outcome = CoordResult<P, Circle, Sphere>;

fn approx_cmp(a: f64, b: f64) -> FloatOrdering {
    if a - b > 1.0e-5 {
        FloatOrdering::Greater
    } else if a - b < -1.0e-5 {
        FloatOrdering::Less
    } else {
        FloatOrdering::Equal
    }
}

fn dist2(a: P, b: P) -> f64 {
    (a[0] - b[0]).powi(2) + (a[1] - b[1]).powi(2) + (a[2] - b[2]).powi(2)
}

fn approx_eq(a: P, b: P) -> FloatEq {
    if dist2(a, b) < 3.0e-10 {
        FloatEq::Eq
    } else {
        FloatEq::NotEq
    }
}

fn relation(a: P, b: P, d: f64) -> SphereSphereRelationship {
    let gap = dist2(a, b);
    SphereSphereRelationship::determine(
        approx_cmp(gap, 4.0 * d * d),
        approx_cmp(gap, 0.0),
        approx_cmp(0.0, 0.0),
    )
}

fn orders_around(cloud: &[P], q: P, d: f64) -> Vec<FloatOrdering> {
    cloud
        .iter()
        .filter(|&&a| dist2(a, q) <= (d + 1.0e-4).powi(2))
        .map(|&a| approx_cmp(dist2(a, q), d * d))
        .collect()
}

fn same_table(points: &[MultiCoordPoint<P>]) -> Vec<Vec<FloatEq>> {
    points
        .iter()
        .map(|a| points.iter().map(|b| approx_eq(a.point(), b.point())).collect())
        .collect()
}

fn site(point: P, ids: &[usize]) -> MultiCoordPoint<P> {
    MultiCoordPoint::new(point, ids.to_vec())
}

// Two atoms at (0,0,0) and (2,0,0), bond length sqrt 2.
#[test]
fn two_atoms_crossing_give_one_circle_and_one_double_site() {
    let cloud: Vec<P> = vec![[0.0, 0.0, 0.0], [2.0, 0.0, 0.0]];
    let d = 2.0_f64.sqrt();
    let mut visited = vec![];
    let pairs_0 = fresh_pairs(0, &vec![0, 1], &mut visited);
    let pairs_1 = fresh_pairs(1, &vec![1, 0], &mut visited);
    assert_eq!(pairs_0, vec![(0, 1)]);
    assert!(pairs_1.is_empty());
    assert_eq!(relation(cloud[0], cloud[1], d), SphereSphereRelationship::Intersect);
    let ring = Circle { center: [1.0, 0.0, 0.0], radius: 1.0, normal: [1.0, 0.0, 0.0] };
    let shared: Vec<SphereSphereResult<P, Circle, Sphere>> = vec![SphereSphereResult::Circle(ring)];
    let first = sphere_neighbour_check(&pairs_0, &shared, &vec![vec![]]);
    let second: Outcome = sphere_neighbour_check(&pairs_1, &vec![], &vec![]);
    let spheres: SphereCheckResult<P, Circle> = sphere_check(&vec![first, second]);
    assert_eq!(spheres.unchecked_circles(), &[CoordCircle::new(ring, [0, 1])]);
    assert!(spheres.single_points().is_empty());
    let circle = spheres.unchecked_circles()[0];
    assert_eq!(circle.circle().center, [1.0, 0.0, 0.0]);
    assert_eq!(circle.circle().radius, 1.0);
    assert_eq!(circle.circle().normal, [1.0, 0.0, 0.0]);

    let common = circle.get_common_neighbours(&vec![0, 1], &vec![1, 0]);
    assert!(common.is_empty());
    let outcome: Option<Outcome> = circle.common_neighbours_intersect(&common, &vec![], &vec![]);
    assert_eq!(outcome, Some(CoordResult::Circle(circle)));
    let circles: CircleCheckResult<P> = check_circles(&vec![outcome]);
    assert!(circles.points().is_empty());

    let on_ring = |k: usize| {
        let theta = std::f64::consts::FRAC_PI_2 + k as f64 * std::f64::consts::PI / 32.0;
        let q = [1.0, theta.cos(), theta.sin()];
        (q, orders_around(&cloud, q, d))
    };
    let double = circle.get_possible_point(on_ring);
    let found = double.expect("a double site");
    assert_eq!(found.atom_ids(), &[0, 1]);
    assert!((found.point()[0] - 1.0).abs() < 1e-12);
    assert!(found.point()[1].abs() < 1e-12);
    assert!((found.point()[2] - 1.0).abs() < 1e-12);

    let report = search_sites(&spheres, &circles, &vec![], &vec![], &vec![], &vec![Some(found)]);
    assert_eq!(report.points(), None);
    assert_eq!(report.viable_single_points(), None);
    assert_eq!(report.viable_double_points().map(|v| v.len()), Some(1));
}

// Three atoms on an equilateral triangle of side 2, bond length the
// circumradius.
#[test]
fn three_atoms_on_a_triangle_give_one_site_on_all_three() {
    let h = 3.0_f64.sqrt();
    let cloud: Vec<P> = vec![[0.0, 0.0, 0.0], [2.0, 0.0, 0.0], [1.0, h, 0.0]];
    let d = 2.0 / h;
    let centre: P = [1.0, h / 3.0, 0.0];
    for (a, b) in [(0, 1), (0, 2), (1, 2)] {
        assert_eq!(relation(cloud[a], cloud[b], d), SphereSphereRelationship::Intersect);
    }
    // The circle of atoms 0 and 1 against the sphere of atom 2.
    let ring_radius = (d * d - 1.0).sqrt();
    assert_eq!(PlaneCut::from_ordering(approx_cmp(0.0, d)), PlaneCut::Slices);
    let gap = 3.0;
    let case = CoplanarCase::determine(
        approx_cmp(gap, 0.0),
        approx_cmp(ring_radius, d),
        approx_cmp(gap, (ring_radius + d).powi(2)),
        approx_cmp(gap, (ring_radius - d).powi(2)),
    );
    assert_eq!(case, CoplanarCase::TouchOutside);
    let touch: P = [1.0, ring_radius, 0.0];
    assert_eq!(approx_eq(touch, centre), FloatEq::Eq);
    let cut: CircleSphereIntersection<P, Circle> =
        CircleSphereIntersection::from_coplanar(CircleCircleIntersection::Single(touch), false);
    assert_eq!(cut, CircleSphereIntersection::Single(touch));

    let ring = Circle { center: [1.0, 0.0, 0.0], radius: ring_radius, normal: [1.0, 0.0, 0.0] };
    let mut outcomes: Vec<Option<Outcome>> = vec![];
    for (pair, third) in [([0, 1], 2), ([0, 2], 1), ([1, 2], 0)] {
        let circle = CoordCircle::new(ring, pair);
        let all: Vec<usize> = vec![0, 1, 2];
        let common = circle.get_common_neighbours(&all, &all);
        assert_eq!(common, vec![third]);
        let cuts = vec![CircleSphereIntersection::Single(centre)];
        outcomes.push(circle.common_neighbours_intersect(&common, &cuts, &vec![FloatOrdering::Equal]));
    }
    let circles: CircleCheckResult<P> = check_circles(&outcomes);
    assert_eq!(circles.points().len(), 3);
    let spheres = SphereCheckResult::<P, Circle>::new(vec![], vec![]);
    let same = same_table(circles.points());
    let orders: Vec<Vec<FloatOrdering>> =
        circles.points().iter().map(|p| orders_around(&cloud, p.point(), d)).collect();
    let report = search_sites(&spheres, &circles, &same, &orders, &vec![], &vec![]);
    let points = report.points().expect("a site on three atoms");
    assert_eq!(points.len(), 1);
    assert_eq!(points[0].atom_ids(), &[0, 1, 2]);
    assert!((points[0].point()[0] - 1.0).abs() < 1e-9);
    assert!((points[0].point()[1] - h / 3.0).abs() < 1e-9);
    assert_eq!(points[0].point()[2], 0.0);
}

// Four atoms on the corners of a unit square, bond length half the diagonal.
#[test]
fn four_atoms_on_a_square_give_one_site_on_all_four() {
    let cloud: Vec<P> = vec![[0.0, 0.0, 0.0], [1.0, 0.0, 0.0], [0.0, 1.0, 0.0], [1.0, 1.0, 0.0]];
    let d = 2.0_f64.sqrt() / 2.0;
    let centre: P = [0.5, 0.5, 0.0];
    assert_eq!(relation(cloud[0], cloud[3], d), SphereSphereRelationship::OutsideCut);
    assert_eq!(relation(cloud[1], cloud[2], d), SphereSphereRelationship::OutsideCut);
    assert_eq!(relation(cloud[0], cloud[1], d), SphereSphereRelationship::Intersect);

    let all: Vec<usize> = vec![0, 1, 2, 3];
    let mut visited = vec![];
    let mut results: Vec<Outcome> = vec![];
    for i in 0..4 {
        let pairs = fresh_pairs(i, &all, &mut visited);
        let mut shared = vec![];
        let mut orders = vec![];
        for &(a, b) in &pairs {
            match relation(cloud[a], cloud[b], d) {
                SphereSphereRelationship::OutsideCut => {
                    shared.push(SphereSphereResult::Point(centre));
                    orders.push(orders_around(&cloud, centre, d));
                }
                _ => {
                    let mid = [
                        (cloud[a][0] + cloud[b][0]) / 2.0,
                        (cloud[a][1] + cloud[b][1]) / 2.0,
                        0.0,
                    ];
                    let ring = Circle { center: mid, radius: 0.5, normal: [1.0, 0.0, 0.0] };
                    shared.push(SphereSphereResult::Circle(ring));
                    orders.push(vec![]);
                }
            }
        }
        results.push(sphere_neighbour_check(&pairs, &shared, &orders));
    }
    assert_eq!(visited.len(), 6);
    let spheres: SphereCheckResult<P, Circle> = sphere_check(&results);
    assert_eq!(spheres.single_points(), &[site(centre, &[0, 3]), site(centre, &[1, 2])]);
    assert_eq!(spheres.unchecked_circles().len(), 4);

    let mut outcomes: Vec<Option<Outcome>> = vec![];
    for circle in spheres.unchecked_circles() {
        let common = circle.get_common_neighbours(&all, &all);
        assert_eq!(common.len(), 2);
        let cuts = vec![CircleSphereIntersection::Single(centre); 2];
        let heights = vec![FloatOrdering::Equal; 2];
        outcomes.push(circle.common_neighbours_intersect(&common, &cuts, &heights));
    }
    let circles: CircleCheckResult<P> = check_circles(&outcomes);
    assert_eq!(circles.points().len(), 8);
    let mut all_points: Vec<MultiCoordPoint<P>> = spheres.single_points().to_vec();
    all_points.extend(circles.points().iter().cloned());
    let same = same_table(&all_points);
    let orders: Vec<Vec<FloatOrdering>> =
        all_points.iter().map(|p| orders_around(&cloud, p.point(), d)).collect();
    let report = search_sites(&spheres, &circles, &same, &orders, &vec![], &vec![]);
    assert_eq!(report.points(), Some(&vec![site(centre, &[0, 1, 2, 3])]));
}

// One atom at the origin, bond length 1.
#[test]
fn one_atom_gives_a_single_site_at_the_pole() {
    let cloud: Vec<P> = vec![[0.0, 0.0, 0.0]];
    let d = 1.0;
    let asked = std::cell::Cell::new(0_usize);
    let survey = |k: usize| {
        asked.set(asked.get() + 1);
        assert_eq!(k, 0);
        let q = [0.0, 0.0, d];
        (q, orders_around(&cloud, q, d))
    };
    let single = search_single_point(0, survey);
    assert_eq!(single, Some(DelegatePoint::new([0.0, 0.0, 1.0], [0])));
    assert_eq!(asked.get(), 1);
    let spheres = SphereCheckResult::<P, Circle>::new(vec![], vec![]);
    let circles = CircleCheckResult::new(vec![]);
    let report = search_sites(&spheres, &circles, &vec![], &vec![], &vec![single], &vec![]);
    assert_eq!(report.viable_single_points(), Some(&vec![DelegatePoint::new([0.0, 0.0, 1.0], [0])]));
    assert_eq!(report.points(), None);
    assert_eq!(report.viable_double_points(), None);
}

// Two atoms at (0,0,0) and (1,0,0) whose spheres of radius one half touch.
#[test]
fn two_touching_atoms_give_a_point_on_both() {
    let cloud: Vec<P> = vec![[0.0, 0.0, 0.0], [1.0, 0.0, 0.0]];
    let d = 0.5;
    assert_eq!(relation(cloud[0], cloud[1], d), SphereSphereRelationship::OutsideCut);
    let mid: P = [0.5, 0.0, 0.0];
    let mut visited = vec![];
    let pairs = fresh_pairs(0, &vec![0, 1], &mut visited);
    let shared: Vec<SphereSphereResult<P, Circle, Sphere>> = vec![SphereSphereResult::Point(mid)];
    let orders = vec![orders_around(&cloud, mid, d)];
    assert_eq!(orders[0], vec![FloatOrdering::Equal, FloatOrdering::Equal]);
    let first = sphere_neighbour_check(&pairs, &shared, &orders);
    let spheres: SphereCheckResult<P, Circle> = sphere_check(&vec![first]);
    assert_eq!(spheres.single_points(), &[site(mid, &[0, 1])]);
    assert!(spheres.unchecked_circles().is_empty());
    let circles = CircleCheckResult::new(vec![]);
    let report =
        search_sites(&spheres, &circles, &vec![vec![FloatEq::Eq]], &orders, &vec![], &vec![]);
    assert_eq!(report.points(), Some(&vec![site(mid, &[0, 1])]));
}

// Two atoms at one place.
#[test]
fn two_atoms_at_one_place_give_nothing() {
    let cloud: Vec<P> = vec![[1.0, 2.0, 3.0], [1.0, 2.0, 3.0]];
    let d = 1.3;
    assert_eq!(relation(cloud[0], cloud[1], d), SphereSphereRelationship::Overlaps);
    let ball = Sphere { center: cloud[0], radius: d };
    let mut visited = vec![];
    let pairs = fresh_pairs(0, &vec![0, 1], &mut visited);
    let shared: Vec<SphereSphereResult<P, Circle, Sphere>> = vec![SphereSphereResult::Overlap(ball)];
    let first = sphere_neighbour_check(&pairs, &shared, &vec![vec![]]);
    assert_eq!(first, CoordResult::Various(vec![]));
    let spheres: SphereCheckResult<P, Circle> = sphere_check(&vec![first]);
    assert!(spheres.single_points().is_empty());
    assert!(spheres.unchecked_circles().is_empty());
    let circles = CircleCheckResult::new(vec![]);
    let crowded = |_k: usize| (cloud[0], vec![FloatOrdering::Less]);
    let singles = vec![search_single_point(0, crowded), search_single_point(1, crowded)];
    let report = search_sites(&spheres, &circles, &vec![], &vec![], &singles, &vec![]);
    assert!(report.is_empty());
}
