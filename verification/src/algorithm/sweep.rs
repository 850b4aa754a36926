//! Sweeps: a row of candidate positions is tried in order, and the first one
//! with room for an atom is taken.

use vstd::prelude::*;
use crate::geometry::approx::{any_closer, has_closer, FloatOrdering};

verus! {

/// The directions that are tried round one atom: the pole, then a grid of
/// `ELEVATIONS` rings of `AZIMUTHS` directions each.
pub const AZIMUTHS: usize = 32;

pub const ELEVATIONS: usize = 8;

pub const SINGLE_DIRECTIONS: usize = 257;

/// The positions that are tried along one circle.
pub const DOUBLE_POSITIONS: usize = 32;

/// One direction of the sweep round an atom. The angles are counted in steps
/// of a sixteenth of a half turn: `elevation` upwards from the equator,
/// `azimuth` round the pole.
#[derive(Debug, Clone, Copy, PartialEq, Eq, Structural)]
pub enum SweepDirection {
    Pole,
    Grid { elevation: usize, azimuth: usize },
}

/// A position has room: none of the atoms around it is closer than the bond
/// length, and there are at most `limit` of them.
pub open spec fn has_room(orders: Seq<FloatOrdering>, limit: usize) -> bool {
    !has_closer(orders) && orders.len() <= limit
}

/// The survey of position `k` came back, for one, without room.
pub open spec fn turned_down<P, F: Fn(usize) -> (P, Vec<FloatOrdering>)>(
    survey: F,
    k: usize,
    limit: usize,
) -> bool {
    exists|out: (P, Vec<FloatOrdering>)|
        call_ensures(survey, (k,), out) && !has_room(out.1@, limit)
}

/// The survey of position `k` gave the place `p` with room.
pub open spec fn taken_at<P, F: Fn(usize) -> (P, Vec<FloatOrdering>)>(
    survey: F,
    k: usize,
    limit: usize,
    p: P,
) -> bool {
    exists|orders: Vec<FloatOrdering>|
        call_ensures(survey, (k,), (p, orders)) && has_room(orders@, limit)
}

/// The surveys of all the positions before `upto` came back without room.
pub open spec fn all_turned_down<P, F: Fn(usize) -> (P, Vec<FloatOrdering>)>(
    survey: F,
    upto: usize,
    limit: usize,
) -> bool {
    forall|j: usize| j < upto ==> #[trigger] turned_down(survey, j, limit)
}

/// What a sweep over `positions` positions gives: the first position with
/// room and its place, every position before it having been turned down, or
/// nothing when all were turned down.
pub open spec fn swept<P, F: Fn(usize) -> (P, Vec<FloatOrdering>)>(
    survey: F,
    positions: usize,
    limit: usize,
    found: Option<(usize, P)>,
) -> bool {
    match found {
        Some((k, p)) => k < positions && taken_at(survey, k, limit, p) && all_turned_down(
            survey,
            k,
            limit,
        ),
        None => all_turned_down(survey, positions, limit),
    }
}

/// A sweep gave the place `p`: `p` is the place of a position below `upto`
/// that has room, and every position before that one was turned down.
pub open spec fn sweep_gave<P, F: Fn(usize) -> (P, Vec<FloatOrdering>)>(
    survey: F,
    upto: usize,
    limit: usize,
    p: P,
) -> bool
    decreases upto,
{
    upto > 0 && (sweep_gave(survey, (upto - 1) as usize, limit, p) || (taken_at(
        survey,
        (upto - 1) as usize,
        limit,
        p,
    ) && all_turned_down(survey, (upto - 1) as usize, limit)))
}

/// A place taken at position `k` is a place that a sweep over more than `k`
/// positions gave.
pub proof fn lemma_sweep_gave<P, F: Fn(usize) -> (P, Vec<FloatOrdering>)>(
    survey: F,
    upto: usize,
    limit: usize,
    k: usize,
    p: P,
)
    requires
        k < upto,
        taken_at(survey, k, limit, p),
        all_turned_down(survey, k, limit),
    ensures
        sweep_gave(survey, upto, limit, p),
    decreases upto,
{
    if k + 1 < upto {
        lemma_sweep_gave(survey, (upto - 1) as usize, limit, k, p);
    }
}

/// The direction with number `k` of the sweep round an atom: the pole first,
/// then ring after ring from the equator upwards, each ring once round.
pub open spec fn direction_of(k: usize) -> SweepDirection {
    if k == 0 {
        SweepDirection::Pole
    } else {
        SweepDirection::Grid {
            elevation: ((k - 1) / (AZIMUTHS as int)) as usize,
            azimuth: ((k - 1) % (AZIMUTHS as int)) as usize,
        }
    }
}

/// The direction with number `k`.
pub fn sweep_direction(k: usize) -> (r: SweepDirection)
    requires
        k < SINGLE_DIRECTIONS,
    ensures
        r == direction_of(k),
        match r {
            SweepDirection::Pole => k == 0,
            SweepDirection::Grid { elevation, azimuth } => elevation < ELEVATIONS && azimuth
                < AZIMUTHS && k == 1 + elevation * AZIMUTHS + azimuth,
        },
{
    if k == 0 {
        SweepDirection::Pole
    } else {
        let at: usize = k - 1;
        SweepDirection::Grid { elevation: at / AZIMUTHS, azimuth: at % AZIMUTHS }
    }
}

/// Tries the positions `0..positions` in order and gives the first one with
/// room, and its place. `survey` gives, for a position, its place and how the
/// distances of the atoms around it compare with the bond length; it is asked
/// for no position after the one that is taken.
pub fn first_with_room<P, F: Fn(usize) -> (P, Vec<FloatOrdering>)>(
    positions: usize,
    limit: usize,
    survey: F,
) -> (found: Option<(usize, P)>)
    requires
        forall|k: usize| k < positions ==> call_requires(survey, (k,)),
    ensures
        swept(survey, positions, limit, found),
{
    let mut k: usize = 0;
    while k < positions
        invariant
            k <= positions,
            forall|j: usize| j < positions ==> call_requires(survey, (j,)),
            all_turned_down(survey, k, limit),
        decreases positions - k,
    {
        let (place, orders) = survey(k);
        if !any_closer(&orders) && orders.len() <= limit {
            assert(taken_at(survey, k, limit, place));
            return Some((k, place));
        }
        assert(turned_down(survey, k, limit));
        k = k + 1;
    }
    None
}

} // verus!
