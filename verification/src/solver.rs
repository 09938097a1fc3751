use vstd::prelude::*;
use vstd::string::*;
use crate::confidence::{confidence_weights, describes, field_details, provided_weight, total_weight};
use crate::types::{ComparisonResult, RaceComparison, RacePreset, RaceResult, RaceTarget, ResolvedCar};

verus! {

/// How two finishing times compare: too close to call, or one car ahead by
/// a margin.
#[derive(Debug, Clone, Copy)]
pub enum TimeGap<N> {
    Even,
    AAhead { margin: N },
    BAhead { margin: N },
}

/// One of the two cars of a comparison.
#[derive(Debug, Clone, Copy, PartialEq, Eq, Structural)]
pub enum Side {
    A,
    B,
}

/// The winner of a race: a finisher beats a non-finisher; between two
/// finishers the faster one wins unless the times are even (`gap` is how the
/// times compare, present exactly when both finished).
pub open spec fn race_winner<N>(
    name_a: Seq<char>,
    name_b: Seq<char>,
    completed_a: bool,
    completed_b: bool,
    gap: Option<TimeGap<N>>,
) -> Option<Seq<char>> {
    if completed_a && completed_b {
        match gap {
            Some(TimeGap::AAhead { .. }) => Some(name_a),
            Some(TimeGap::BAhead { .. }) => Some(name_b),
            _ => None,
        }
    } else if completed_a {
        Some(name_a)
    } else if completed_b {
        Some(name_b)
    } else {
        None
    }
}

/// The winning margin: the gap between two finishers, zero otherwise.
pub open spec fn race_margin<N>(completed_a: bool, completed_b: bool, gap: Option<TimeGap<N>>, zero: N) -> N {
    if completed_a && completed_b {
        match gap {
            Some(TimeGap::AAhead { margin }) => margin,
            Some(TimeGap::BAhead { margin }) => margin,
            _ => zero,
        }
    } else {
        zero
    }
}

/// The same gap seen from the other car.
pub open spec fn mirrored<N>(gap: Option<TimeGap<N>>) -> Option<TimeGap<N>> {
    match gap {
        Some(TimeGap::AAhead { margin }) => Some(TimeGap::BAhead { margin }),
        Some(TimeGap::BAhead { margin }) => Some(TimeGap::AAhead { margin }),
        g => g,
    }
}

/// Decides the winner and the margin of one race.
pub fn decide_race<N: Copy>(
    name_a: &str,
    name_b: &str,
    completed_a: bool,
    completed_b: bool,
    gap: Option<TimeGap<N>>,
    zero: N,
) -> (r: (Option<String>, N))
    ensures
        match r.0 {
            Some(w) => race_winner(name_a@, name_b@, completed_a, completed_b, gap) == Some(w@),
            None => race_winner(name_a@, name_b@, completed_a, completed_b, gap) is None,
        },
        r.1 == race_margin(completed_a, completed_b, gap, zero),
{
    if completed_a && completed_b {
        match gap {
            Some(TimeGap::AAhead { margin }) => (Some(String::from_str(name_a)), margin),
            Some(TimeGap::BAhead { margin }) => (Some(String::from_str(name_b)), margin),
            _ => (None, zero),
        }
    } else if completed_a {
        (Some(String::from_str(name_a)), zero)
    } else if completed_b {
        (Some(String::from_str(name_b)), zero)
    } else {
        (None, zero)
    }
}

/// Swapping the two cars swaps the winner and keeps the margin.
pub proof fn lemma_winner_symmetric<N>(
    name_a: Seq<char>,
    name_b: Seq<char>,
    completed_a: bool,
    completed_b: bool,
    gap: Option<TimeGap<N>>,
    zero: N,
)
    ensures
        race_winner(name_b, name_a, completed_b, completed_a, mirrored(gap)) == race_winner(
            name_a,
            name_b,
            completed_a,
            completed_b,
            gap,
        ),
        race_margin(completed_b, completed_a, mirrored(gap), zero) == race_margin(
            completed_a,
            completed_b,
            gap,
            zero,
        ),
{
}

/// A race that both cars finish has a winner unless the times are even.
pub proof fn lemma_finished_race_has_winner<N>(
    name_a: Seq<char>,
    name_b: Seq<char>,
    gap: TimeGap<N>,
)
    requires
        !(gap is Even),
    ensures
        race_winner(name_a, name_b, true, true, Some(gap)) is Some,
{
}

/// A car that finishes always beats one that does not, by a zero margin.
pub proof fn lemma_finisher_beats_non_finisher<N>(
    name_a: Seq<char>,
    name_b: Seq<char>,
    gap: Option<TimeGap<N>>,
    zero: N,
)
    ensures
        race_winner(name_a, name_b, true, false, gap) == Some(name_a),
        race_winner(name_a, name_b, false, true, gap) == Some(name_b),
        race_margin(true, false, gap, zero) == zero,
        race_margin(false, true, gap, zero) == zero,
{
}

/// Between two finishers the car that is ahead wins, by the gap's margin;
/// even times give no winner and a zero margin, and so does a race that
/// neither car finishes.
pub proof fn lemma_car_ahead_wins<N>(name_a: Seq<char>, name_b: Seq<char>, margin: N, zero: N)
    ensures
        race_winner(name_a, name_b, true, true, Some((TimeGap::AAhead { margin }))) == Some(name_a),
        race_margin(true, true, Some((TimeGap::AAhead { margin })), zero) == margin,
        race_winner(name_a, name_b, true, true, Some((TimeGap::BAhead { margin }))) == Some(name_b),
        race_margin(true, true, Some((TimeGap::BAhead { margin })), zero) == margin,
        race_winner(name_a, name_b, true, true, Some(TimeGap::<N>::Even)) is None,
        race_margin(true, true, Some(TimeGap::<N>::Even), zero) == zero,
        forall|gap: Option<TimeGap<N>>| #[trigger] race_winner(name_a, name_b, false, false, gap) is None,
{
}

/// The report on one race, given both cars' results.
pub open spec fn reports_race<N>(
    c: RaceComparison<N>,
    race_name: Seq<char>,
    name_a: Seq<char>,
    name_b: Seq<char>,
    gap: Option<TimeGap<N>>,
    zero: N,
) -> bool {
    let ca = c.result_a.completed;
    let cb = c.result_b.completed;
    &&& c.race_name@ == race_name
    &&& match c.winner {
        Some(w) => race_winner(name_a, name_b, ca, cb, gap) == Some(w@),
        None => race_winner(name_a, name_b, ca, cb, gap) is None,
    }
    &&& c.margin_s == race_margin(ca, cb, gap, zero)
}

/// Runs every race for both cars and reports the results, the winners, and
/// each car's confidence and per-field breakdown.  `simulate(side, i)` runs
/// race `i` for one car; `gap` compares two finishing times; `ratio` turns
/// the confidence weights (provided, total) into a score.
pub fn run_comparison<
    N: Copy,
    S: Fn(Side, usize) -> RaceResult<N>,
    G: Fn(N, N) -> TimeGap<N>,
    C: Fn(u32, u32) -> N,
>(
    car_a: &ResolvedCar<N>,
    car_b: &ResolvedCar<N>,
    races: &Vec<RacePreset<N>>,
    simulate: S,
    gap: G,
    ratio: C,
    zero: N,
) -> (res: ComparisonResult<N>)
    requires
        forall|side: Side, i: usize| simulate.requires((side, i)),
        forall|x: N, y: N| gap.requires((x, y)),
        forall|p: u32, t: u32| ratio.requires((p, t)),
    ensures
        res.car_a.same_as(*car_a),
        res.car_b.same_as(*car_b),
        res.races@.len() == races@.len(),
        forall|i: int|
            0 <= i < races@.len() ==> {
                let c = #[trigger] res.races@[i];
                &&& simulate.ensures((Side::A, i as usize), c.result_a)
                &&& simulate.ensures((Side::B, i as usize), c.result_b)
                &&& exists|g: Option<TimeGap<N>>|
                    {
                        &&& (g is Some <==> c.result_a.completed && c.result_b.completed)
                        &&& (g matches Some(t) ==> gap.ensures(
                            (c.result_a.time_s, c.result_b.time_s),
                            t,
                        ))
                        &&& reports_race(c, races@[i].name@, car_a.name@, car_b.name@, g, zero)
                    }
            },
        ratio.ensures((provided_weight(car_a.sources) as u32, total_weight() as u32), res.confidence_a),
        ratio.ensures((provided_weight(car_b.sources) as u32, total_weight() as u32), res.confidence_b),
        describes(res.details_a@, car_a.sources),
        describes(res.details_b@, car_b.sources),
{
    let mut reports: Vec<RaceComparison<N>> = Vec::new();
    let mut i: usize = 0;
    while i < races.len()
        invariant
            0 <= i <= races@.len(),
            reports@.len() == i,
            forall|side: Side, k: usize| simulate.requires((side, k)),
            forall|x: N, y: N| gap.requires((x, y)),
            forall|j: int|
                0 <= j < i ==> {
                    let c = #[trigger] reports@[j];
                    &&& simulate.ensures((Side::A, j as usize), c.result_a)
                    &&& simulate.ensures((Side::B, j as usize), c.result_b)
                    &&& exists|g: Option<TimeGap<N>>|
                        {
                            &&& (g is Some <==> c.result_a.completed && c.result_b.completed)
                            &&& (g matches Some(t) ==> gap.ensures(
                                (c.result_a.time_s, c.result_b.time_s),
                                t,
                            ))
                            &&& reports_race(c, races@[j].name@, car_a.name@, car_b.name@, g, zero)
                        }
                },
        decreases races.len() - i,
    {
        let ra = simulate(Side::A, i);
        let rb = simulate(Side::B, i);
        let g = if ra.completed && rb.completed {
            Some(gap(ra.time_s, rb.time_s))
        } else {
            None
        };
        let (winner, margin) = decide_race(
            car_a.name.as_str(),
            car_b.name.as_str(),
            ra.completed,
            rb.completed,
            g,
            zero,
        );
        let report = RaceComparison {
            race_name: races[i].name.clone(),
            result_a: ra,
            result_b: rb,
            winner,
            margin_s: margin,
        };
        assert(reports_race(report, races@[i as int].name@, car_a.name@, car_b.name@, g, zero));
        reports.push(report);
        i += 1;
    }
    let (provided_a, total_a) = confidence_weights(car_a);
    let (provided_b, total_b) = confidence_weights(car_b);
    ComparisonResult {
        car_a: car_a.duplicate(),
        car_b: car_b.duplicate(),
        races: reports,
        confidence_a: ratio(provided_a, total_a),
        confidence_b: ratio(provided_b, total_b),
        details_a: field_details(car_a),
        details_b: field_details(car_b),
    }
}

/// `name` is one of `names`.
pub open spec fn named_in(names: Seq<String>, name: Seq<char>) -> bool {
    exists|j: int| 0 <= j < names.len() && (#[trigger] names[j])@ == name
}

/// Whether a race is chosen by a list of names: every race is when no name
/// is given, else those whose name is listed.
pub open spec fn chosen_by<N>(names: Seq<String>) -> spec_fn(RacePreset<N>) -> bool {
    |r: RacePreset<N>| names.len() == 0 || named_in(names, r.name@)
}

/// The races chosen by a list of names, in their original order.
pub open spec fn chosen_races<N>(races: Seq<RacePreset<N>>, names: Seq<String>) -> Seq<RacePreset<N>> {
    races.filter(chosen_by(names))
}

/// Both presets describe the same race.
pub open spec fn same_race<N>(a: RacePreset<N>, b: RacePreset<N>) -> bool {
    &&& a.name@ == b.name@
    &&& a.start_mph == b.start_mph
    &&& a.target == b.target
}

fn copy_race<N: Copy>(r: &RacePreset<N>) -> (c: RacePreset<N>)
    ensures
        same_race(c, *r),
{
    RacePreset {
        name: r.name.clone(),
        start_mph: r.start_mph,
        target: match r.target {
            RaceTarget::Distance { feet } => RaceTarget::Distance { feet },
            RaceTarget::Speed { mph } => RaceTarget::Speed { mph },
        },
    }
}

fn is_named_in(names: &Vec<String>, name: &String) -> (b: bool)
    ensures
        b == named_in(names@, name@),
{
    let mut j: usize = 0;
    while j < names.len()
        invariant
            0 <= j <= names@.len(),
            forall|k: int| 0 <= k < j ==> (#[trigger] names@[k])@ != name@,
        decreases names.len() - j,
    {
        if names[j] == *name {
            return true;
        }
        j += 1;
    }
    false
}

/// Chooses the races to run: all of them when `names` is empty, else those
/// whose name is listed, in their original order.
pub fn select_races<N: Copy>(races: &Vec<RacePreset<N>>, names: &Vec<String>) -> (out: Vec<RacePreset<N>>)
    ensures
        out@.len() == chosen_races(races@, names@).len(),
        forall|i: int|
            0 <= i < out@.len() ==> same_race(#[trigger] out@[i], chosen_races(races@, names@)[i]),
{
    let mut out: Vec<RacePreset<N>> = Vec::new();
    let ghost pick = chosen_by::<N>(names@);
    let mut i: usize = 0;
    while i < races.len()
        invariant
            0 <= i <= races@.len(),
            pick == chosen_by::<N>(names@),
            out@.len() == races@.subrange(0, i as int).filter(pick).len(),
            forall|k: int|
                0 <= k < out@.len() ==> same_race(
                    #[trigger] out@[k],
                    races@.subrange(0, i as int).filter(pick)[k],
                ),
        decreases races.len() - i,
    {
        let ghost prev = races@.subrange(0, i as int);
        let ghost next = races@.subrange(0, i + 1);
        proof {
            reveal_with_fuel(Seq::<_>::filter, 1);
            assert(next.drop_last() =~= prev);
            assert(next.last() == races@[i as int]);
        }
        let chosen = if names.len() == 0 {
            true
        } else {
            is_named_in(names, &races[i].name)
        };
        assert(chosen == (names@.len() == 0 || named_in(names@, races@[i as int].name@)));
        assert(chosen == pick(races@[i as int]));
        if chosen {
            out.push(copy_race(&races[i]));
            assert(next.filter(pick) == prev.filter(pick).push(races@[i as int]));
        } else {
            assert(next.filter(pick) == prev.filter(pick));
        }
        i += 1;
    }
    assert(races@.subrange(0, races@.len() as int) =~= races@);
    out
}

/// Which races a list of names chooses: with no names every race, in its
/// order; else a race is chosen exactly when its name equals one of the
/// names, wherever that name stands in the list, and nothing but the given
/// races is chosen.
pub proof fn lemma_chosen_races_meaning<N>(races: Seq<RacePreset<N>>, names: Seq<String>)
    ensures
        names.len() == 0 ==> chosen_races(races, names) == races,
        forall|i: int|
            0 <= i < races.len() && (names.len() == 0 || exists|j: int|
                0 <= j < names.len() && names[j]@ == (#[trigger] races[i]).name@)
                ==> chosen_races(races, names).contains(races[i]),
        forall|r: RacePreset<N>|
            #[trigger] chosen_races(races, names).contains(r) ==> races.contains(r) && (names.len()
                == 0 || exists|j: int| 0 <= j < names.len() && (#[trigger] names[j])@ == r.name@),
{
    broadcast use vstd::seq_lib::group_filter_ensures;

    let pick = chosen_by::<N>(names);
    if names.len() == 0 {
        lemma_filter_all(races, pick);
    }
    assert forall|i: int|
        0 <= i < races.len() && (names.len() == 0 || exists|j: int|
            0 <= j < names.len() && names[j]@ == (#[trigger] races[i]).name@) implies chosen_races(
        races,
        names,
    ).contains(races[i]) by {
        assert(pick(races[i]));
    }
    assert forall|r: RacePreset<N>| #[trigger] chosen_races(races, names).contains(r) implies races.contains(r)
        && (names.len() == 0 || exists|j: int| 0 <= j < names.len() && (#[trigger] names[j])@ == r.name@) by {
        races.lemma_filter_contains_rev(pick, r);
        let k = choose|k: int| 0 <= k < races.filter(pick).len() && races.filter(pick)[k] == r;
        assert(pick(races.filter(pick)[k]));
    }
}

/// A filter that keeps everything gives the sequence back.
proof fn lemma_filter_all<A>(s: Seq<A>, p: spec_fn(A) -> bool)
    requires
        forall|a: A| #[trigger] p(a),
    ensures
        s.filter(p) == s,
    decreases s.len(),
{
    reveal_with_fuel(Seq::<_>::filter, 1);
    if s.len() > 0 {
        lemma_filter_all(s.drop_last(), p);
        assert(s.drop_last().push(s.last()) =~= s);
    } else {
        assert(s.filter(p) =~= s);
    }
}

} // verus!
