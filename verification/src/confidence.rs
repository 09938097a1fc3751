use vstd::prelude::*;
use vstd::string::*;
use crate::types::{FieldSources, Origin, ResolvedCar, ValueSource, field_name, num_fields, source_label};

verus! {

/// Per-field breakdown of where a car's values came from.
#[derive(Debug, Clone)]
pub struct FieldDetail {
    pub field: String,
    pub source: String,
    pub impact: String,
    pub provided: bool,
}

/// How much a field matters to the accuracy of a simulation.  These weights
/// are intrinsic to the physics model, not tuneable assumptions.
pub open spec fn weight_of(name: Seq<char>) -> nat {
    if name == "gears"@ || name == "final_drive"@ {
        10
    } else if name == "tq_peak"@ || name == "rpm_hp"@ {
        8
    } else if name == "cd"@ || name == "frontal_area_sqft"@ || name == "tire_mu"@ {
        7
    } else if name == "drivetrain_loss_pct"@ {
        6
    } else if name == "tire_diameter_in"@ || name == "redline"@ {
        5
    } else if name == "rpm_tq"@ || name == "shift_time_s"@ {
        4
    } else if name == "weight_dist_rear_pct"@ || name == "wheelbase_in"@ || name == "cg_height_in"@ {
        3
    } else if name == "launch_rpm"@ {
        2
    } else {
        1
    }
}

/// Weight of the `i`-th estimable field.
pub open spec fn weight_at(i: int) -> nat {
    weight_of(field_name(i))
}

/// Credit given to the three required fields (weight, peak power, driven
/// wheels), which are always provided.
pub open spec fn required_weight() -> nat {
    10 + 10 + 5
}

/// Total weight of the first `n` estimable fields.
pub open spec fn total_weight_upto(n: int) -> nat
    decreases n,
{
    if n <= 0 {
        0
    } else {
        total_weight_upto(n - 1) + weight_at(n - 1)
    }
}

/// Weight of those of the first `n` fields that the user provided.
pub open spec fn provided_weight_upto(s: FieldSources, n: int) -> nat
    decreases n,
{
    if n <= 0 {
        0
    } else {
        provided_weight_upto(s, n - 1) + if s.source_at(n - 1)@ == Origin::Provided {
            weight_at(n - 1)
        } else {
            0
        }
    }
}

/// The confidence numerator: the required credit plus the weight of every
/// provided field.
pub open spec fn provided_weight(s: FieldSources) -> nat {
    required_weight() + provided_weight_upto(s, num_fields() as int)
}

/// The confidence denominator: the required credit plus every field's weight.
pub open spec fn total_weight() -> nat {
    required_weight() + total_weight_upto(num_fields() as int)
}

/// `details` lists every estimable field of `s`, in order, with the printed
/// form of its source, its impact class and whether the user provided it.
pub open spec fn describes(details: Seq<FieldDetail>, s: FieldSources) -> bool {
    &&& details.len() == num_fields()
    &&& forall|i: int|
        0 <= i < num_fields() ==> {
            &&& (#[trigger] details[i]).field@ == field_name(i)
            &&& details[i].source@ == source_label(s.source_at(i))
            &&& details[i].impact@ == impact_of(weight_at(i))
            &&& details[i].provided == (s.source_at(i)@ == Origin::Provided)
        }
}

/// The impact class of a field of weight `w`.
pub open spec fn impact_of(w: nat) -> Seq<char> {
    if w >= 8 {
        "critical"@
    } else if w >= 6 {
        "high"@
    } else if w >= 4 {
        "medium"@
    } else {
        "low"@
    }
}

/// The field names are the sixteen distinct literals they are written as,
/// with the weights given in the weight table.
proof fn lemma_field_weights()
    ensures
        weight_at(0) == 8,
        weight_at(1) == 8,
        weight_at(2) == 4,
        weight_at(3) == 5,
        weight_at(4) == 10,
        weight_at(5) == 10,
        weight_at(6) == 4,
        weight_at(7) == 7,
        weight_at(8) == 7,
        weight_at(9) == 5,
        weight_at(10) == 3,
        weight_at(11) == 3,
        weight_at(12) == 3,
        weight_at(13) == 7,
        weight_at(14) == 6,
        weight_at(15) == 2,
{
    broadcast use vstd::string::group_string_axioms;

    reveal_strlit("gears");
    assert("gears"@ =~= seq!['g', 'e', 'a', 'r', 's']);
    reveal_strlit("final_drive");
    assert("final_drive"@ =~= seq!['f', 'i', 'n', 'a', 'l', '_', 'd', 'r', 'i', 'v', 'e']);
    reveal_strlit("tq_peak");
    assert("tq_peak"@ =~= seq!['t', 'q', '_', 'p', 'e', 'a', 'k']);
    reveal_strlit("rpm_hp");
    assert("rpm_hp"@ =~= seq!['r', 'p', 'm', '_', 'h', 'p']);
    reveal_strlit("cd");
    assert("cd"@ =~= seq!['c', 'd']);
    reveal_strlit("frontal_area_sqft");
    assert("frontal_area_sqft"@ =~= seq!['f', 'r', 'o', 'n', 't', 'a', 'l', '_', 'a', 'r', 'e', 'a', '_', 's', 'q', 'f', 't']);
    reveal_strlit("tire_mu");
    assert("tire_mu"@ =~= seq!['t', 'i', 'r', 'e', '_', 'm', 'u']);
    reveal_strlit("drivetrain_loss_pct");
    assert("drivetrain_loss_pct"@ =~= seq!['d', 'r', 'i', 'v', 'e', 't', 'r', 'a', 'i', 'n', '_', 'l', 'o', 's', 's', '_', 'p', 'c', 't']);
    reveal_strlit("tire_diameter_in");
    assert("tire_diameter_in"@ =~= seq!['t', 'i', 'r', 'e', '_', 'd', 'i', 'a', 'm', 'e', 't', 'e', 'r', '_', 'i', 'n']);
    reveal_strlit("redline");
    assert("redline"@ =~= seq!['r', 'e', 'd', 'l', 'i', 'n', 'e']);
    reveal_strlit("rpm_tq");
    assert("rpm_tq"@ =~= seq!['r', 'p', 'm', '_', 't', 'q']);
    reveal_strlit("shift_time_s");
    assert("shift_time_s"@ =~= seq!['s', 'h', 'i', 'f', 't', '_', 't', 'i', 'm', 'e', '_', 's']);
    reveal_strlit("weight_dist_rear_pct");
    assert("weight_dist_rear_pct"@ =~= seq!['w', 'e', 'i', 'g', 'h', 't', '_', 'd', 'i', 's', 't', '_', 'r', 'e', 'a', 'r', '_', 'p', 'c', 't']);
    reveal_strlit("wheelbase_in");
    assert("wheelbase_in"@ =~= seq!['w', 'h', 'e', 'e', 'l', 'b', 'a', 's', 'e', '_', 'i', 'n']);
    reveal_strlit("cg_height_in");
    assert("cg_height_in"@ =~= seq!['c', 'g', '_', 'h', 'e', 'i', 'g', 'h', 't', '_', 'i', 'n']);
    reveal_strlit("launch_rpm");
    assert("launch_rpm"@ =~= seq!['l', 'a', 'u', 'n', 'c', 'h', '_', 'r', 'p', 'm']);
}

/// The weight table: how much a field matters to simulation accuracy.
fn field_weight(name: &str) -> (w: u32)
    ensures
        w == weight_of(name@),
{
    let n = String::from_str(name);
    if n == String::from_str("gears") || n == String::from_str("final_drive") {
        10
    } else if n == String::from_str("tq_peak") || n == String::from_str("rpm_hp") {
        8
    } else if n == String::from_str("cd") || n == String::from_str("frontal_area_sqft") || n
        == String::from_str("tire_mu") {
        7
    } else if n == String::from_str("drivetrain_loss_pct") {
        6
    } else if n == String::from_str("tire_diameter_in") || n == String::from_str("redline") {
        5
    } else if n == String::from_str("rpm_tq") || n == String::from_str("shift_time_s") {
        4
    } else if n == String::from_str("weight_dist_rear_pct") || n == String::from_str("wheelbase_in")
        || n == String::from_str("cg_height_in") {
        3
    } else if n == String::from_str("launch_rpm") {
        2
    } else {
        1
    }
}

proof fn lemma_weight_bounds(s: FieldSources, n: int)
    requires
        0 <= n,
    ensures
        provided_weight_upto(s, n) <= total_weight_upto(n),
        total_weight_upto(n) <= 10 * n,
    decreases n,
{
    if n > 0 {
        lemma_weight_bounds(s, n - 1);
    }
}

proof fn lemma_total_weight()
    ensures
        total_weight() == 117,
{
    lemma_field_weights();
    reveal_with_fuel(total_weight_upto, 17);
}

/// The impact class of a weight.
fn impact_label(w: u32) -> (s: String)
    ensures
        s@ == impact_of(w as nat),
{
    if w >= 8 {
        String::from_str("critical")
    } else if w >= 6 {
        String::from_str("high")
    } else if w >= 4 {
        String::from_str("medium")
    } else {
        String::from_str("low")
    }
}

/// The two weights a car's confidence score is the ratio of: the weight of
/// what the user provided (the three required fields always count as
/// provided) and the weight of everything.  Their ratio is 1 exactly when
/// every optional field was provided.
pub fn confidence_weights<N>(car: &ResolvedCar<N>) -> (r: (u32, u32))
    ensures
        r.0 == provided_weight(car.sources),
        r.1 == total_weight(),
        r.1 == 117,
{
    let fields = car.sources.all_fields();
    let mut provided: u32 = 0;
    let mut total: u32 = 0;
    let mut i: usize = 0;
    while i < fields.len()
        invariant
            fields@.len() == num_fields(),
            forall|j: int|
                0 <= j < num_fields() ==> #[trigger] fields@[j].0@ == field_name(j) && *fields@[j].1
                    == car.sources.source_at(j),
            0 <= i <= fields@.len(),
            provided == provided_weight_upto(car.sources, i as int),
            total == total_weight_upto(i as int),
        decreases fields.len() - i,
    {
        proof {
            lemma_weight_bounds(car.sources, i as int + 1);
        }
        let (name, source) = fields[i];
        let w = field_weight(name);
        total = total + w;
        if source.is_provided() {
            provided = provided + w;
        }
        i += 1;
    }
    proof {
        lemma_weight_bounds(car.sources, 16);
        lemma_total_weight();
    }
    (provided + 25, total + 25)
}

/// A car's confidence score: `ratio` applied to its provided and total
/// weights.  1 means every optional field was given by the user; the three
/// required fields always count as given.
pub fn car_confidence<N, C: Fn(u32, u32) -> N>(car: &ResolvedCar<N>, ratio: C) -> (score: N)
    requires
        forall|p: u32, t: u32| ratio.requires((p, t)),
    ensures
        ratio.ensures((provided_weight(car.sources) as u32, total_weight() as u32), score),
{
    let (provided, total) = confidence_weights(car);
    ratio(provided, total)
}

/// Per-field breakdown of a car: each estimable field with the printed form
/// of its source, its impact class and whether the user provided it.
pub fn field_details<N>(car: &ResolvedCar<N>) -> (out: Vec<FieldDetail>)
    ensures
        describes(out@, car.sources),
{
    let fields = car.sources.all_fields();
    let mut out: Vec<FieldDetail> = Vec::new();
    let mut i: usize = 0;
    while i < fields.len()
        invariant
            fields@.len() == num_fields(),
            forall|j: int|
                0 <= j < num_fields() ==> #[trigger] fields@[j].0@ == field_name(j) && *fields@[j].1
                    == car.sources.source_at(j),
            0 <= i <= fields@.len(),
            out@.len() == i,
            forall|j: int|
                0 <= j < i ==> {
                    &&& (#[trigger] out@[j]).field@ == field_name(j)
                    &&& out@[j].source@ == source_label(car.sources.source_at(j))
                    &&& out@[j].impact@ == impact_of(weight_at(j))
                    &&& out@[j].provided == (car.sources.source_at(j)@ == Origin::Provided)
                },
        decreases fields.len() - i,
    {
        let (name, source) = fields[i];
        let w = field_weight(name);
        out.push(
            FieldDetail {
                field: String::from_str(name),
                source: source.to_string(),
                impact: impact_label(w),
                provided: source.is_provided(),
            },
        );
        i += 1;
    }
    out
}

/// A car's confidence weights satisfy `required <= provided <= total`: the
/// score lies between the credit for the required fields and 1.
pub proof fn lemma_confidence_bounds(s: FieldSources)
    ensures
        required_weight() <= provided_weight(s),
        provided_weight(s) <= total_weight(),
        required_weight() == 25,
        total_weight() == 117,
{
    lemma_weight_bounds(s, 16);
    lemma_total_weight();
}

proof fn lemma_full_iff(s: FieldSources, n: int)
    requires
        0 <= n <= 16,
    ensures
        (provided_weight_upto(s, n) == total_weight_upto(n)) <==> (forall|i: int|
            0 <= i < n ==> (#[trigger] s.source_at(i))@ == Origin::Provided),
    decreases n,
{
    if n > 0 {
        lemma_full_iff(s, n - 1);
        lemma_weight_bounds(s, n - 1);
        assert(weight_at(n - 1) >= 1);
        if provided_weight_upto(s, n) == total_weight_upto(n) {
            assert(s.source_at(n - 1)@ == Origin::Provided);
        }
    }
}

/// The score is 1 exactly when every optional field was provided by the user.
pub proof fn lemma_full_confidence_iff_all_provided(s: FieldSources)
    ensures
        (provided_weight(s) == total_weight()) <==> (forall|i: int|
            0 <= i < num_fields() ==> (#[trigger] s.source_at(i))@ == Origin::Provided),
{
    lemma_full_iff(s, 16);
}

proof fn lemma_none_upto(s: FieldSources, n: int)
    requires
        0 <= n <= 16,
        forall|i: int| 0 <= i < n ==> (#[trigger] s.source_at(i))@ != Origin::Provided,
    ensures
        provided_weight_upto(s, n) == 0,
    decreases n,
{
    if n > 0 {
        lemma_none_upto(s, n - 1);
    }
}

/// When no optional field was provided, only the required fields count.
pub proof fn lemma_nothing_provided_scores_required_only(s: FieldSources)
    requires
        forall|i: int| 0 <= i < num_fields() ==> (#[trigger] s.source_at(i))@ != Origin::Provided,
    ensures
        provided_weight(s) == required_weight(),
        provided_weight(s) == 25,
{
    lemma_none_upto(s, 16);
}

proof fn lemma_monotone_upto(a: FieldSources, b: FieldSources, n: int)
    requires
        0 <= n <= 16,
        forall|i: int|
            0 <= i < n && (#[trigger] a.source_at(i))@ == Origin::Provided ==> b.source_at(i)@
                == Origin::Provided,
    ensures
        provided_weight_upto(a, n) <= provided_weight_upto(b, n),
    decreases n,
{
    if n > 0 {
        lemma_monotone_upto(a, b, n - 1);
    }
}

/// Providing more fields never lowers the score: if every field that `a`
/// has from the user `b` has from the user too, `b` scores at least as high.
pub proof fn lemma_confidence_monotone(a: FieldSources, b: FieldSources)
    requires
        forall|i: int|
            0 <= i < num_fields() && (#[trigger] a.source_at(i))@ == Origin::Provided
                ==> b.source_at(i)@ == Origin::Provided,
    ensures
        provided_weight(a) <= provided_weight(b),
{
    lemma_monotone_upto(a, b, 16);
}

proof fn lemma_strict_upto(a: FieldSources, b: FieldSources, n: int, k: int)
    requires
        0 <= k < n <= 16,
        forall|i: int|
            0 <= i < n && (#[trigger] a.source_at(i))@ == Origin::Provided ==> b.source_at(i)@
                == Origin::Provided,
        a.source_at(k)@ != Origin::Provided,
        b.source_at(k)@ == Origin::Provided,
    ensures
        provided_weight_upto(a, n) < provided_weight_upto(b, n),
    decreases n,
{
    if n - 1 == k {
        lemma_monotone_upto(a, b, n - 1);
        assert(weight_at(k) >= 1);
    } else {
        lemma_strict_upto(a, b, n - 1, k);
    }
}

/// Providing strictly more fields raises the score: if `b` has from the user
/// every field `a` has, and one more, `b` scores higher.
pub proof fn lemma_confidence_strictly_monotone(a: FieldSources, b: FieldSources, k: int)
    requires
        0 <= k < num_fields(),
        forall|i: int|
            0 <= i < num_fields() && (#[trigger] a.source_at(i))@ == Origin::Provided
                ==> b.source_at(i)@ == Origin::Provided,
        a.source_at(k)@ != Origin::Provided,
        b.source_at(k)@ == Origin::Provided,
    ensures
        provided_weight(a) < provided_weight(b),
{
    lemma_strict_upto(a, b, 16, k);
}

/// The impact classes: in a per-field breakdown a field is "critical" exactly
/// when its weight is at least 8, "high" when it is 6 or 7, "medium" when it
/// is 4 or 5 and "low" below 4; every field gets one of these four classes.
pub proof fn lemma_impact_classes(details: Seq<FieldDetail>, s: FieldSources)
    requires
        describes(details, s),
    ensures
        forall|i: int|
            0 <= i < details.len() ==> {
                let w = weight_of((#[trigger] details[i]).field@);
                &&& (details[i].impact@ == "critical"@ <==> w >= 8)
                &&& (details[i].impact@ == "high"@ <==> 6 <= w < 8)
                &&& (details[i].impact@ == "medium"@ <==> 4 <= w < 6)
                &&& (details[i].impact@ == "low"@ <==> w < 4)
            },
{
    broadcast use vstd::string::group_string_axioms;

    reveal_strlit("critical");
    assert("critical"@.len() == 8);
    reveal_strlit("high");
    assert("high"@.len() == 4);
    reveal_strlit("medium");
    assert("medium"@.len() == 6);
    reveal_strlit("low");
    assert("low"@.len() == 3);
}

/// The weight table, field by field: gears and final drive weigh 10, peak
/// torque and peak-power rpm 8, drag coefficient, frontal area and tire grip
/// 7, drivetrain loss 6, tire diameter and redline 5, peak-torque rpm and
/// shift time 4, weight distribution, wheelbase and centre-of-gravity height
/// 3, launch rpm 2.
pub proof fn lemma_weight_table()
    ensures
        weight_of("gears"@) == 10,
        weight_of("final_drive"@) == 10,
        weight_of("tq_peak"@) == 8,
        weight_of("rpm_hp"@) == 8,
        weight_of("cd"@) == 7,
        weight_of("frontal_area_sqft"@) == 7,
        weight_of("tire_mu"@) == 7,
        weight_of("drivetrain_loss_pct"@) == 6,
        weight_of("tire_diameter_in"@) == 5,
        weight_of("redline"@) == 5,
        weight_of("rpm_tq"@) == 4,
        weight_of("shift_time_s"@) == 4,
        weight_of("weight_dist_rear_pct"@) == 3,
        weight_of("wheelbase_in"@) == 3,
        weight_of("cg_height_in"@) == 3,
        weight_of("launch_rpm"@) == 2,
{
    lemma_field_weights();
}

} // verus!
