use chemrust_nasl::algorithm::search::gather;
use chemrust_nasl::algorithm::search_report::into_class;
use chemrust_nasl::algorithm::sphere_check::holds_pair;
use chemrust_nasl::error::{FormatError, RunError};
use chemrust_nasl::{
    brute_force_search_single, check_circles, first_with_room, format_of_extension, fresh_pairs,
    match_format, search_possible_double_points, search_possible_single_points,
    search_single_point, search_sites, search_special_sites, sphere_check,
    sphere_neighbour_check, sweep_direction, validate_site, AcceptFormat, CircleCheckResult,
    CoordCircle, CoordResult, DelegatePoint, FloatEq, FloatOrdering, MultiCoordPoint,
    SearchReports, SphereCheckResult, SphereSphereResult, SweepDirection,
};

type P = [f64; 3];
type C = (P, f64);
type S = (P, f64);
type Outcome = CoordResult<P, C, S>;

const UP: P = [0.0, 0.0, 1.0];
const DOWN: P = [0.0, 0.0, -1.0];
const MID: P = [0.5, 0.0, 0.0];
const RING: C = ([1.0, 0.0, 0.0], 1.0);
const BALL: S = ([0.0, 0.0, 0.0], 1.0);

fn site(point: P, ids: &[usize]) -> MultiCoordPoint<P> {
    MultiCoordPoint::new(point, ids.to_vec())
}

#[test]
fn holds_pair_looks_the_pair_up() {
    let pairs = vec![(0, 1), (2, 5)];
    assert!(holds_pair(&pairs, (2, 5)));
    assert!(!holds_pair(&pairs, (5, 2)));
    assert!(!holds_pair(&pairs, (0, 5)));
}

#[test]
fn fresh_pairs_are_sorted_and_new() {
    let mut visited = vec![];
    let first = fresh_pairs(3, &vec![3, 1, 7], &mut visited);
    assert_eq!(first, vec![(1, 3), (3, 7)]);
    assert_eq!(visited, vec![(1, 3), (3, 7)]);
    let second = fresh_pairs(7, &vec![7, 3, 9, 9], &mut visited);
    assert_eq!(second, vec![(7, 9)]);
    assert_eq!(visited, vec![(1, 3), (3, 7), (7, 9)]);
    let third = fresh_pairs(1, &vec![1], &mut visited);
    assert!(third.is_empty());
    assert_eq!(visited.len(), 3);
}

#[test]
fn sphere_neighbour_check_sorts_the_outcomes_out() {
    let pairs = vec![(0, 1), (0, 2), (0, 3), (0, 4), (0, 5)];
    let shared: Vec<SphereSphereResult<P, C, S>> = vec![
        SphereSphereResult::Empty,
        SphereSphereResult::Point(MID),
        SphereSphereResult::Circle(RING),
        SphereSphereResult::Overlap(BALL),
        SphereSphereResult::Point(UP),
    ];
    let orders = vec![
        vec![],
        vec![FloatOrdering::Equal, FloatOrdering::Equal],
        vec![],
        vec![],
        vec![FloatOrdering::Equal, FloatOrdering::Less],
    ];
    let r = sphere_neighbour_check(&pairs, &shared, &orders);
    assert_eq!(
        r,
        CoordResult::Various(vec![
            CoordResult::SinglePoint(site(MID, &[0, 2])),
            CoordResult::Circle(CoordCircle::new(RING, [0, 3])),
        ])
    );
}

#[test]
fn sphere_check_gathers_points_and_circles() {
    let results: Vec<Outcome> = vec![
        CoordResult::Various(vec![
            CoordResult::SinglePoint(site(MID, &[0, 2])),
            CoordResult::Circle(CoordCircle::new(RING, [0, 3])),
        ]),
        CoordResult::Empty,
        CoordResult::Various(vec![]),
        CoordResult::Various(vec![
            CoordResult::Circle(CoordCircle::new(RING, [1, 3])),
            CoordResult::SinglePoint(site(UP, &[1, 4])),
        ]),
    ];
    let r: SphereCheckResult<P, C> = sphere_check(&results);
    assert_eq!(r.single_points(), &[site(MID, &[0, 2]), site(UP, &[1, 4])]);
    assert_eq!(
        r.unchecked_circles(),
        &[CoordCircle::new(RING, [0, 3]), CoordCircle::new(RING, [1, 3])]
    );
}

#[test]
fn check_circles_takes_the_points_only() {
    let outcomes: Vec<Option<Outcome>> = vec![
        Some(CoordResult::Points(vec![site(UP, &[0, 1, 2])])),
        None,
        Some(CoordResult::Circle(CoordCircle::new(RING, [0, 3]))),
        Some(CoordResult::Points(vec![site(DOWN, &[0, 1, 3]), site(MID, &[1, 2, 3])])),
    ];
    let r: CircleCheckResult<P> = check_circles(&outcomes);
    assert_eq!(
        r.points(),
        &[site(UP, &[0, 1, 2]), site(DOWN, &[0, 1, 3]), site(MID, &[1, 2, 3])]
    );
}

#[test]
fn sweep_directions_go_ring_by_ring() {
    assert_eq!(sweep_direction(0), SweepDirection::Pole);
    assert_eq!(sweep_direction(1), SweepDirection::Grid { elevation: 0, azimuth: 0 });
    assert_eq!(sweep_direction(32), SweepDirection::Grid { elevation: 0, azimuth: 31 });
    assert_eq!(sweep_direction(33), SweepDirection::Grid { elevation: 1, azimuth: 0 });
    assert_eq!(sweep_direction(100), SweepDirection::Grid { elevation: 3, azimuth: 3 });
    assert_eq!(sweep_direction(256), SweepDirection::Grid { elevation: 7, azimuth: 31 });
}

#[test]
fn first_with_room_takes_the_first() {
    let survey = |k: usize| {
        let orders = if k < 4 { vec![FloatOrdering::Less] } else { vec![FloatOrdering::Equal] };
        ([k as f64, 0.0, 0.0], orders)
    };
    assert_eq!(first_with_room(10, 5, survey), Some((4, [4.0, 0.0, 0.0])));
    assert_eq!(first_with_room(4, 5, survey), None);
    assert_eq!(first_with_room(0, 5, survey), None);
}

#[test]
fn first_with_room_minds_the_limit() {
    let survey = |k: usize| ([k as f64, 0.0, 0.0], vec![FloatOrdering::Equal; 6 - k]);
    assert_eq!(first_with_room(6, 2, survey), Some((4, [4.0, 0.0, 0.0])));
}

#[test]
fn first_with_room_asks_no_further() {
    let asked = std::cell::Cell::new(0_usize);
    let survey = |k: usize| {
        asked.set(asked.get() + 1);
        ([k as f64, 0.0, 0.0], vec![FloatOrdering::Greater])
    };
    assert_eq!(first_with_room(257, usize::MAX, survey), Some((0, [0.0, 0.0, 0.0])));
    assert_eq!(asked.get(), 1);
}

#[test]
fn brute_force_search_single_tries_all_directions() {
    let survey = |k: usize| {
        let orders = if k < 256 { vec![FloatOrdering::Less] } else { vec![FloatOrdering::Equal; 9] };
        ([k as f64, 0.0, 0.0], orders)
    };
    assert_eq!(brute_force_search_single(survey), Some([256.0, 0.0, 0.0]));
    let crowded = |k: usize| ([k as f64, 0.0, 0.0], vec![FloatOrdering::Less]);
    assert_eq!(brute_force_search_single(crowded), None);
}

#[test]
fn search_single_point_anchors_on_the_atom() {
    let survey = |_k: usize| (UP, vec![FloatOrdering::Equal]);
    assert_eq!(search_single_point(12, survey), Some(DelegatePoint::new(UP, [12])));
    let crowded = |_k: usize| (UP, vec![FloatOrdering::Less]);
    assert_eq!(search_single_point(12, crowded), None);
}

#[test]
fn get_possible_point_wants_at_most_two_atoms_around() {
    let c = CoordCircle::new(RING, [3, 8]);
    let survey = |k: usize| {
        let orders = match k {
            0 => vec![FloatOrdering::Equal, FloatOrdering::Equal, FloatOrdering::Greater],
            1 => vec![FloatOrdering::Equal, FloatOrdering::Less],
            _ => vec![FloatOrdering::Equal, FloatOrdering::Equal],
        };
        ([k as f64, 0.0, 0.0], orders)
    };
    assert_eq!(c.get_possible_point(survey), Some(DelegatePoint::new([2.0, 0.0, 0.0], [3, 8])));
    let crowded = |k: usize| ([k as f64, 0.0, 0.0], vec![FloatOrdering::Equal; 3]);
    assert_eq!(c.get_possible_point(crowded), None);
    let last = |k: usize| {
        let orders = if k < 31 { vec![FloatOrdering::Less] } else { vec![] };
        ([k as f64, 0.0, 0.0], orders)
    };
    assert_eq!(c.get_possible_point(last), Some(DelegatePoint::new([31.0, 0.0, 0.0], [3, 8])));
}

#[test]
fn gather_takes_what_is_there() {
    assert_eq!(gather(&vec![None, Some(3), None, Some(5)]), Some(vec![3, 5]));
    assert_eq!(gather::<u8>(&vec![None, None]), None);
    assert_eq!(gather::<u8>(&vec![]), None);
}

#[test]
fn possible_points_are_present_where_there_is_one() {
    let singles = vec![None, Some(DelegatePoint::<P, 1>::new(UP, [1])), None];
    assert_eq!(search_possible_single_points(&singles), Some(vec![DelegatePoint::new(UP, [1])]));
    assert_eq!(search_possible_single_points::<P>(&vec![None]), None);
    let doubles = vec![
        Some(DelegatePoint::<P, 2>::new(UP, [0, 1])),
        Some(DelegatePoint::<P, 2>::new(DOWN, [1, 2])),
    ];
    assert_eq!(
        search_possible_double_points(&doubles),
        Some(vec![DelegatePoint::new(UP, [0, 1]), DelegatePoint::new(DOWN, [1, 2])])
    );
    assert_eq!(search_possible_double_points::<P>(&vec![]), None);
}

#[test]
fn special_sites_are_merged_from_both_stages() {
    let spheres = SphereCheckResult::<P, C>::new(vec![site(MID, &[0, 3])], vec![]);
    let circles =
        CircleCheckResult::new(vec![site(MID, &[0, 1, 2]), site(UP, &[4, 5, 6]), site(MID, &[1, 2, 3])]);
    let e = FloatEq::Eq;
    let n = FloatEq::NotEq;
    let same = vec![vec![e, e, n, e], vec![e, e, n, e], vec![n, n, e, n], vec![e, e, n, e]];
    let orders = vec![vec![FloatOrdering::Equal]; 4];
    assert_eq!(
        search_special_sites(&spheres, &circles, &same, &orders),
        Some(vec![site(MID, &[0, 1, 2, 3]), site(UP, &[4, 5, 6])])
    );
    let crowded = vec![vec![FloatOrdering::Less]; 4];
    assert_eq!(search_special_sites(&spheres, &circles, &same, &crowded), None);
}

#[test]
fn into_class_leaves_an_empty_list_out() {
    assert_eq!(into_class(Some(vec![1, 2])), Some(vec![1, 2]));
    assert_eq!(into_class(Some(Vec::<u8>::new())), None);
    assert_eq!(into_class::<u8>(None), None);
}

#[test]
fn reports_hold_no_empty_class() {
    let r = SearchReports::<P>::new(Some(vec![]), Some(vec![DelegatePoint::new(UP, [0])]), None);
    assert_eq!(r.points(), None);
    assert_eq!(r.viable_single_points(), Some(&vec![DelegatePoint::new(UP, [0])]));
    assert_eq!(r.viable_double_points(), None);
    assert!(!r.is_empty());
    let nothing = SearchReports::<P>::new(Some(vec![]), None, Some(vec![]));
    assert!(nothing.is_empty());
}

#[test]
fn validate_site_keeps_the_free_site() {
    let p = site(UP, &[0, 1, 2]);
    assert_eq!(validate_site(&p, &vec![FloatOrdering::Equal]), Some(&p));
    assert_eq!(validate_site(&p, &vec![FloatOrdering::Greater, FloatOrdering::Less]), None);
}

#[test]
fn validated_results_are_the_free_sites() {
    let sites = vec![site(UP, &[0, 1, 2]), site(DOWN, &[3, 4, 5]), site(MID, &[6, 7, 8])];
    let orders = vec![vec![FloatOrdering::Equal], vec![FloatOrdering::Less], vec![]];
    assert_eq!(
        SearchReports::<P>::validated_results(&sites, &orders),
        vec![site(UP, &[0, 1, 2]), site(MID, &[6, 7, 8])]
    );
}

#[test]
fn search_sites_reports_all_three_classes() {
    let spheres = SphereCheckResult::<P, C>::new(vec![site(MID, &[0, 1])], vec![]);
    let circles = CircleCheckResult::new(vec![]);
    let same = vec![vec![FloatEq::Eq]];
    let orders = vec![vec![FloatOrdering::Equal, FloatOrdering::Equal]];
    let singles = vec![Some(DelegatePoint::new(UP, [0])), None];
    let doubles = vec![];
    let r = search_sites(&spheres, &circles, &same, &orders, &singles, &doubles);
    assert_eq!(r.points(), Some(&vec![site(MID, &[0, 1])]));
    assert_eq!(r.viable_single_points(), Some(&vec![DelegatePoint::new(UP, [0])]));
    assert_eq!(r.viable_double_points(), None);
}

#[test]
fn format_by_extension() {
    assert_eq!(match_format("model.cell"), Ok(AcceptFormat::Cell));
    assert_eq!(match_format("some/dir.d/g-C3N4.cell"), Ok(AcceptFormat::Cell));
    assert_eq!(match_format("model.cif"), Err(FormatError::Supported));
    assert_eq!(match_format("model.CELL"), Err(FormatError::Supported));
    assert_eq!(match_format("model"), Err(FormatError::Identified));
    assert_eq!(match_format("some.dir/model"), Err(FormatError::Identified));
    assert_eq!(match_format(".cell"), Err(FormatError::Identified));
}

#[test]
fn format_of_an_extension() {
    assert_eq!(format_of_extension(&Some("cell".to_string())), Ok(AcceptFormat::Cell));
    assert_eq!(format_of_extension(&Some("cel".to_string())), Err(FormatError::Supported));
    assert_eq!(format_of_extension(&Some(String::new())), Err(FormatError::Supported));
    assert_eq!(format_of_extension(&None), Err(FormatError::Identified));
}

#[test]
fn format_errors_in_words() {
    assert_eq!(FormatError::Supported.message(), "This format is not supported");
    assert_eq!(
        FormatError::Compatible.message(),
        "The file content is not compatible with the format requirement"
    );
    assert_eq!(
        FormatError::Identified.message(),
        "The file does not have extension suffix `.xxx`"
    );
    assert_eq!(FormatError::ReadToString.message(), "Failed to read to string");
}

#[test]
fn run_errors_in_words() {
    assert_eq!(RunError::Message("no model".to_string()).message(), "no model");
    assert_eq!(
        RunError::FormatError(FormatError::Supported).message(),
        "This format is not supported"
    );
    assert_eq!(RunError::IO.message(), "Error in IO operations");
    assert_eq!(RunError::no_results().message(), "No available results for this config.");
}
