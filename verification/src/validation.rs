use vstd::prelude::*;
use vstd::string::*;
use crate::text::{decimal, decimal_string};
use crate::types::CarInput;

verus! {

/// A problem found in a car's input: the field and what is wrong with it.
#[derive(Debug, Clone)]
pub struct ValidationWarning {
    pub field: String,
    pub message: String,
}

impl View for ValidationWarning {
    type V = (Seq<char>, Seq<char>);

    open spec fn view(&self) -> (Seq<char>, Seq<char>) {
        (self.field@, self.message@)
    }
}

/// Builds a warning about `field`.
pub fn warn(field: &str, message: &str) -> (w: ValidationWarning)
    ensures
        w@ == (field@, message@),
{
    ValidationWarning { field: String::from_str(field), message: String::from_str(message) }
}

/// The plausible ranges the validator checks against.  The warning texts
/// name the standard ranges (weight up to 15 000 lbs, power up to 5 000 HP,
/// peak-power rpm 1 000 to 15 000, and so on), which these limits hold.
#[derive(Debug, Clone)]
pub struct ValidationLimits<N> {
    pub zero: N,
    pub max_weight_lbs: N,
    pub max_hp: N,
    pub min_rpm_hp: N,
    pub max_rpm_hp: N,
    pub min_rpm_tq: N,
    pub max_rpm_tq: N,
    pub min_redline: N,
    pub max_redline: N,
    pub min_cd: N,
    pub max_cd: N,
    pub min_frontal_area_sqft: N,
    pub max_frontal_area_sqft: N,
    pub min_tire_diameter_in: N,
    pub max_tire_diameter_in: N,
    pub min_tire_mu: N,
    pub max_tire_mu: N,
    pub min_weight_dist_rear_pct: N,
    pub max_weight_dist_rear_pct: N,
    pub min_drivetrain_loss_pct: N,
    pub max_drivetrain_loss_pct: N,
}

/// `f` is a total, deterministic comparison.
pub open spec fn is_comparison<N, F: Fn(N, N) -> bool>(f: F) -> bool {
    &&& forall|a: N, b: N| #[trigger] f.requires((a, b))
    &&& forall|a: N, b: N, r1: bool, r2: bool|
        #![trigger f.ensures((a, b), r1), f.ensures((a, b), r2)]
        f.ensures((a, b), r1) && f.ensures((a, b), r2) ==> r1 == r2
}

/// The comparison `f` holds between `a` and `b`.
pub open spec fn holds<N, F: Fn(N, N) -> bool>(f: F, a: N, b: N) -> bool {
    f.ensures((a, b), true)
}

fn compare<N: Copy, F: Fn(N, N) -> bool>(f: &F, a: N, b: N) -> (r: bool)
    requires
        is_comparison(*f),
    ensures
        r == holds(*f, a, b),
{
    let r = f(a, b);
    proof {
        if !r && holds(*f, a, b) {
            assert(f.ensures((a, b), r) && f.ensures((a, b), true));
        }
    }
    r
}

/// One warning when `c` holds, none otherwise.
pub open spec fn warn_if(c: bool, field: Seq<char>, message: Seq<char>) -> Seq<(Seq<char>, Seq<char>)> {
    if c {
        seq![(field, message)]
    } else {
        seq![]
    }
}

/// The warnings about an optional value: `check` applied when it is present.
pub open spec fn warn_if_some<N>(
    v: Option<N>,
    check: spec_fn(N) -> bool,
    field: Seq<char>,
    message: Seq<char>,
) -> Seq<(Seq<char>, Seq<char>)> {
    match v {
        Some(x) => warn_if(check(x), field, message),
        None => seq![],
    }
}

/// `x` lies outside `[lo, hi]`: below `lo` or above `hi`.
pub open spec fn outside<N, L: Fn(N, N) -> bool>(lt: L, x: N, lo: N, hi: N) -> bool {
    holds(lt, x, lo) || holds(lt, hi, x)
}

fn push_warning(out: &mut Vec<ValidationWarning>, c: bool, field: &str, message: &str)
    ensures
        warnings_view(final(out)@) == warnings_view(old(out)@) + warn_if(c, field@, message@),
{
    let ghost before = warnings_view(out@);
    if c {
        out.push(warn(field, message));
    }
    assert(warnings_view(out@) =~= before + warn_if(c, field@, message@));
}

/// The view of a list of warnings.
pub open spec fn warnings_view(ws: Seq<ValidationWarning>) -> Seq<(Seq<char>, Seq<char>)> {
    ws.map_values(|w: ValidationWarning| w@)
}

/// Warnings for the non-positive gear ratios among the first `n` gears.
pub open spec fn nonpositive_gear_warnings<N, E: Fn(N, N) -> bool>(
    le: E,
    gears: Seq<N>,
    zero: N,
    n: int,
) -> Seq<(Seq<char>, Seq<char>)>
    decreases n,
{
    if n <= 0 {
        seq![]
    } else {
        nonpositive_gear_warnings(le, gears, zero, n - 1) + warn_if(
            holds(le, gears[n - 1], zero),
            "gears"@,
            "gear "@ + decimal((n - 1) as nat) + " ratio must be positive"@,
        )
    }
}

/// Some gear's ratio is not above the next one's.
pub open spec fn not_descending<N, E: Fn(N, N) -> bool>(le: E, gears: Seq<N>) -> bool {
    exists|i: int| 0 <= i && i + 1 < gears.len() && #[trigger] holds(le, gears[i], gears[i + 1])
}

/// The warnings about a gear set.
pub open spec fn gear_warnings<N, E: Fn(N, N) -> bool>(le: E, gears: Seq<N>, zero: N) -> Seq<
    (Seq<char>, Seq<char>),
> {
    warn_if(gears.len() == 0, "gears"@, "must have at least one gear"@) + nonpositive_gear_warnings(
        le,
        gears,
        zero,
        gears.len() as int,
    ) + warn_if(not_descending(le, gears), "gears"@, "ratios should be descending (highest first)"@)
}

fn push_gear_warnings<N: Copy, E: Fn(N, N) -> bool>(
    out: &mut Vec<ValidationWarning>,
    gears: &Vec<N>,
    zero: N,
    le: &E,
)
    requires
        is_comparison(*le),
    ensures
        warnings_view(final(out)@) == warnings_view(old(out)@) + gear_warnings(*le, gears@, zero),
{
    let ghost start = warnings_view(out@);
    push_warning(out, gears.len() == 0, "gears", "must have at least one gear");
    let ghost after_empty = warnings_view(out@);
    let mut i: usize = 0;
    while i < gears.len()
        invariant
            0 <= i <= gears@.len(),
            is_comparison(*le),
            warnings_view(out@) == after_empty + nonpositive_gear_warnings(*le, gears@, zero, i as int),
        decreases gears.len() - i,
    {
        let c = compare(le, gears[i], zero);
        let msg = String::from_str("gear ").concat(decimal_string(i).as_str()).concat(
            " ratio must be positive",
        );
        let ghost prev = warnings_view(out@);
        if c {
            out.push(ValidationWarning { field: String::from_str("gears"), message: msg });
        }
        assert(warnings_view(out@) =~= prev + warn_if(
            holds(*le, gears@[i as int], zero),
            "gears"@,
            "gear "@ + decimal(i as nat) + " ratio must be positive"@,
        ));
        assert(after_empty + nonpositive_gear_warnings(*le, gears@, zero, i + 1) =~= (after_empty
            + nonpositive_gear_warnings(*le, gears@, zero, i as int)) + warn_if(
            holds(*le, gears@[i as int], zero),
            "gears"@,
            "gear "@ + decimal(i as nat) + " ratio must be positive"@,
        ));
        i += 1;
    }
    let mut j: usize = 0;
    let mut found = false;
    while j < gears.len() && j + 1 < gears.len()
        invariant_except_break
            forall|k: int| 0 <= k < j ==> !#[trigger] holds(*le, gears@[k], gears@[k + 1]),
            !found,
        invariant
            is_comparison(*le),
            0 <= j <= gears@.len(),
        ensures
            found == not_descending(*le, gears@),
        decreases gears.len() - j,
    {
        if compare(le, gears[j], gears[j + 1]) {
            found = true;
            break;
        }
        j += 1;
    }
    push_warning(out, found, "gears", "ratios should be descending (highest first)");
    assert(warnings_view(out@) =~= start + gear_warnings(*le, gears@, zero));
}

/// The warnings about the mass, the power and the engine speeds.
pub open spec fn engine_warnings<N, L: Fn(N, N) -> bool, E: Fn(N, N) -> bool>(
    car: CarInput<N>,
    limits: ValidationLimits<N>,
    lt: L,
    le: E,
) -> Seq<(Seq<char>, Seq<char>)> {
    seq![] + warn_if(
        holds(le, car.weight_lbs, limits.zero),
        "weight_lbs"@,
        "must be positive"@,
    ) + warn_if(
        holds(le, car.hp_peak, limits.zero),
        "hp_peak"@,
        "must be positive"@,
    ) + warn_if(
        holds(lt, limits.max_weight_lbs, car.weight_lbs),
        "weight_lbs"@,
        "unusually high (> 15 000 lbs) — double-check value"@,
    ) + warn_if(
        holds(lt, limits.max_hp, car.hp_peak),
        "hp_peak"@,
        "unusually high (> 5 000 HP) — double-check value"@,
    ) + warn_if(
        (car.tq_peak matches Some(v) && holds(le, v, limits.zero)),
        "tq_peak"@,
        "must be positive"@,
    ) + warn_if(
        (car.rpm_hp matches Some(v) && outside(lt, v, limits.min_rpm_hp, limits.max_rpm_hp)),
        "rpm_hp"@,
        "expected between 1 000 and 15 000"@,
    ) + warn_if(
        (car.rpm_tq matches Some(v) && outside(lt, v, limits.min_rpm_tq, limits.max_rpm_tq)),
        "rpm_tq"@,
        "expected between 500 and 12 000"@,
    ) + warn_if(
        (car.redline matches Some(v) && outside(lt, v, limits.min_redline, limits.max_redline)),
        "redline"@,
        "expected between 2 000 and 20 000"@,
    ) + warn_if(
        (car.rpm_tq matches Some(t) && car.rpm_hp matches Some(h) && holds(le, h, t)),
        "rpm_tq"@,
        "peak torque RPM should be lower than peak HP RPM"@,
    ) + warn_if(
        (car.redline matches Some(r) && car.rpm_hp matches Some(h) && holds(le, r, h)),
        "redline"@,
        "redline should be above peak HP RPM"@,
    )
}

fn collect_engine_warnings<N: Copy, L: Fn(N, N) -> bool, E: Fn(N, N) -> bool>(
    car: &CarInput<N>,
    limits: &ValidationLimits<N>,
    lt: &L,
    le: &E,
) -> (out: Vec<ValidationWarning>)
    requires
        is_comparison(*lt),
        is_comparison(*le),
    ensures
        warnings_view(out@) == engine_warnings(*car, *limits, *lt, *le),
{
    let mut out: Vec<ValidationWarning> = Vec::new();
    assert(warnings_view(out@) =~= Seq::<(Seq<char>, Seq<char>)>::empty());
    let c = compare(le, car.weight_lbs, limits.zero);
    push_warning(&mut out, c, "weight_lbs", "must be positive");
    let c = compare(le, car.hp_peak, limits.zero);
    push_warning(&mut out, c, "hp_peak", "must be positive");
    let c = compare(lt, limits.max_weight_lbs, car.weight_lbs);
    push_warning(&mut out, c, "weight_lbs", "unusually high (> 15 000 lbs) — double-check value");
    let c = compare(lt, limits.max_hp, car.hp_peak);
    push_warning(&mut out, c, "hp_peak", "unusually high (> 5 000 HP) — double-check value");
    let c = match car.tq_peak { Some(v) => compare(le, v, limits.zero), None => false };
    push_warning(&mut out, c, "tq_peak", "must be positive");
    let c = match car.rpm_hp { Some(v) => compare(lt, v, limits.min_rpm_hp) || compare(lt, limits.max_rpm_hp, v), None => false };
    push_warning(&mut out, c, "rpm_hp", "expected between 1 000 and 15 000");
    let c = match car.rpm_tq { Some(v) => compare(lt, v, limits.min_rpm_tq) || compare(lt, limits.max_rpm_tq, v), None => false };
    push_warning(&mut out, c, "rpm_tq", "expected between 500 and 12 000");
    let c = match car.redline { Some(v) => compare(lt, v, limits.min_redline) || compare(lt, limits.max_redline, v), None => false };
    push_warning(&mut out, c, "redline", "expected between 2 000 and 20 000");
    let c = match (car.rpm_tq, car.rpm_hp) { (Some(t), Some(h)) => compare(le, h, t), _ => false };
    push_warning(&mut out, c, "rpm_tq", "peak torque RPM should be lower than peak HP RPM");
    let c = match (car.redline, car.rpm_hp) { (Some(r), Some(h)) => compare(le, r, h), _ => false };
    push_warning(&mut out, c, "redline", "redline should be above peak HP RPM");
    out
}

/// The warnings about the final drive, the aerodynamics, the tyres and the weight distribution.
pub open spec fn chassis_warnings<N, L: Fn(N, N) -> bool, E: Fn(N, N) -> bool>(
    car: CarInput<N>,
    limits: ValidationLimits<N>,
    lt: L,
    le: E,
) -> Seq<(Seq<char>, Seq<char>)> {
    seq![] + warn_if(
        (car.final_drive matches Some(v) && holds(le, v, limits.zero)),
        "final_drive"@,
        "must be positive"@,
    ) + warn_if(
        (car.cd matches Some(v) && outside(lt, v, limits.min_cd, limits.max_cd)),
        "cd"@,
        "expected between 0.10 and 1.00"@,
    ) + warn_if(
        (car.frontal_area_sqft matches Some(v) && outside(lt, v, limits.min_frontal_area_sqft, limits.max_frontal_area_sqft)),
        "frontal_area_sqft"@,
        "expected between 10 and 50 sq ft"@,
    ) + warn_if(
        (car.tire_diameter_in matches Some(v) && outside(lt, v, limits.min_tire_diameter_in, limits.max_tire_diameter_in)),
        "tire_diameter_in"@,
        "expected between 15 and 40 inches"@,
    ) + warn_if(
        (car.tire_mu matches Some(v) && outside(lt, v, limits.min_tire_mu, limits.max_tire_mu)),
        "tire_mu"@,
        "expected between 0.3 and 2.5"@,
    ) + warn_if(
        (car.weight_dist_rear_pct matches Some(v) && outside(lt, v, limits.min_weight_dist_rear_pct, limits.max_weight_dist_rear_pct)),
        "weight_dist_rear_pct"@,
        "expected between 20% and 80%"@,
    ) + warn_if(
        (car.drivetrain_loss_pct matches Some(v) && outside(lt, v, limits.min_drivetrain_loss_pct, limits.max_drivetrain_loss_pct)),
        "drivetrain_loss_pct"@,
        "expected between 0% and 50%"@,
    )
}

fn collect_chassis_warnings<N: Copy, L: Fn(N, N) -> bool, E: Fn(N, N) -> bool>(
    car: &CarInput<N>,
    limits: &ValidationLimits<N>,
    lt: &L,
    le: &E,
) -> (out: Vec<ValidationWarning>)
    requires
        is_comparison(*lt),
        is_comparison(*le),
    ensures
        warnings_view(out@) == chassis_warnings(*car, *limits, *lt, *le),
{
    let mut out: Vec<ValidationWarning> = Vec::new();
    assert(warnings_view(out@) =~= Seq::<(Seq<char>, Seq<char>)>::empty());
    let c = match car.final_drive { Some(v) => compare(le, v, limits.zero), None => false };
    push_warning(&mut out, c, "final_drive", "must be positive");
    let c = match car.cd { Some(v) => compare(lt, v, limits.min_cd) || compare(lt, limits.max_cd, v), None => false };
    push_warning(&mut out, c, "cd", "expected between 0.10 and 1.00");
    let c = match car.frontal_area_sqft { Some(v) => compare(lt, v, limits.min_frontal_area_sqft) || compare(lt, limits.max_frontal_area_sqft, v), None => false };
    push_warning(&mut out, c, "frontal_area_sqft", "expected between 10 and 50 sq ft");
    let c = match car.tire_diameter_in { Some(v) => compare(lt, v, limits.min_tire_diameter_in) || compare(lt, limits.max_tire_diameter_in, v), None => false };
    push_warning(&mut out, c, "tire_diameter_in", "expected between 15 and 40 inches");
    let c = match car.tire_mu { Some(v) => compare(lt, v, limits.min_tire_mu) || compare(lt, limits.max_tire_mu, v), None => false };
    push_warning(&mut out, c, "tire_mu", "expected between 0.3 and 2.5");
    let c = match car.weight_dist_rear_pct { Some(v) => compare(lt, v, limits.min_weight_dist_rear_pct) || compare(lt, limits.max_weight_dist_rear_pct, v), None => false };
    push_warning(&mut out, c, "weight_dist_rear_pct", "expected between 20% and 80%");
    let c = match car.drivetrain_loss_pct { Some(v) => compare(lt, v, limits.min_drivetrain_loss_pct) || compare(lt, limits.max_drivetrain_loss_pct, v), None => false };
    push_warning(&mut out, c, "drivetrain_loss_pct", "expected between 0% and 50%");
    out
}

/// The warnings about a car's gears, if it gives any.
pub open spec fn gear_part<N, E: Fn(N, N) -> bool>(car: CarInput<N>, limits: ValidationLimits<N>, le: E) -> Seq<
    (Seq<char>, Seq<char>),
> {
    match car.gears {
        Some(g) => gear_warnings(le, g@, limits.zero),
        None => seq![],
    }
}

/// The warnings the validator reports for a car, in the order it reports
/// them.
pub open spec fn expected_warnings<N, L: Fn(N, N) -> bool, E: Fn(N, N) -> bool>(
    car: CarInput<N>,
    limits: ValidationLimits<N>,
    lt: L,
    le: E,
) -> Seq<(Seq<char>, Seq<char>)> {
    engine_warnings(car, limits, lt, le) + gear_part(car, limits, le) + chassis_warnings(
        car,
        limits,
        lt,
        le,
    )
}

/// Checks a car's input for out-of-range values and contradictions between
/// fields.  `lt` and `le` are the strict and non-strict orderings of the
/// scalar type; `limits` gives the plausible ranges.
pub fn validate_car_input<N: Copy, L: Fn(N, N) -> bool, E: Fn(N, N) -> bool>(
    car: &CarInput<N>,
    limits: &ValidationLimits<N>,
    lt: L,
    le: E,
) -> (ws: Vec<ValidationWarning>)
    requires
        is_comparison(lt),
        is_comparison(le),
    ensures
        warnings_view(ws@) == expected_warnings(*car, *limits, lt, le),
{
    let mut out = collect_engine_warnings(car, limits, &lt, &le);
    let ghost after_engine = warnings_view(out@);
    if let Some(g) = &car.gears {
        push_gear_warnings(&mut out, g, limits.zero, &le);
    }
    let ghost gear_part = match &car.gears {
        Some(g) => gear_warnings(le, g@, limits.zero),
        None => seq![],
    };
    assert(warnings_view(out@) =~= after_engine + gear_part);
    let ghost before_chassis = out@;
    let mut rest = collect_chassis_warnings(car, limits, &lt, &le);
    let ghost chassis = rest@;
    out.append(&mut rest);
    assert(out@ == before_chassis + chassis);
    assert(warnings_view(out@) =~= warnings_view(before_chassis) + warnings_view(chassis));
    assert(warnings_view(out@) =~= expected_warnings(*car, *limits, lt, le));
    out
}

/// Gear ratios that are not in descending order always draw a warning on
/// the gears.
pub proof fn lemma_ascending_gears_warn<N, L: Fn(N, N) -> bool, E: Fn(N, N) -> bool>(
    car: CarInput<N>,
    limits: ValidationLimits<N>,
    lt: L,
    le: E,
    i: int,
)
    requires
        car.gears matches Some(g) && 0 <= i && i + 1 < g@.len() && holds(le, g@[i], g@[i + 1]),
    ensures
        expected_warnings(car, limits, lt, le).contains(
            ("gears"@, "ratios should be descending (highest first)"@),
        ),
{
    let g = car.gears->0@;
    assert(not_descending(le, g));
    let w = ("gears"@, "ratios should be descending (highest first)"@);
    let gw = gear_warnings(le, g, limits.zero);
    let pre = warn_if(g.len() == 0, "gears"@, "must have at least one gear"@) + nonpositive_gear_warnings(
        le,
        g,
        limits.zero,
        g.len() as int,
    );
    assert(gw[pre.len() as int] == w);
    let e = engine_warnings(car, limits, lt, le);
    let all = expected_warnings(car, limits, lt, le);
    assert(all[e.len() + pre.len() as int] == w);
}


/// A conditional warning holds the warning exactly when the condition does.
pub broadcast proof fn lemma_warn_if_contains(c: bool, field: Seq<char>, message: Seq<char>, x: (
    Seq<char>,
    Seq<char>,
))
    ensures
        #[trigger] warn_if(c, field, message).contains(x) <==> (c && x == (field, message)),
{
    if c {
        assert(warn_if(c, field, message)[0] == (field, message));
    }
}

proof fn lemma_engine_contains<N, L: Fn(N, N) -> bool, E: Fn(N, N) -> bool>(
    car: CarInput<N>,
    limits: ValidationLimits<N>,
    lt: L,
    le: E,
    x: (Seq<char>, Seq<char>),
)
    ensures
        engine_warnings(car, limits, lt, le).contains(x) <==> ((x == ("weight_lbs"@, "must be positive"@) && (holds(le, car.weight_lbs, limits.zero)))
            || (x == ("hp_peak"@, "must be positive"@) && (holds(le, car.hp_peak, limits.zero)))
            || (x == ("weight_lbs"@, "unusually high (> 15 000 lbs) — double-check value"@) && (holds(lt, limits.max_weight_lbs, car.weight_lbs)))
            || (x == ("hp_peak"@, "unusually high (> 5 000 HP) — double-check value"@) && (holds(lt, limits.max_hp, car.hp_peak)))
            || (x == ("tq_peak"@, "must be positive"@) && (car.tq_peak is Some && holds(le, car.tq_peak->0, limits.zero)))
            || (x == ("rpm_hp"@, "expected between 1 000 and 15 000"@) && (car.rpm_hp is Some && (holds(lt, car.rpm_hp->0, limits.min_rpm_hp) || holds(lt, limits.max_rpm_hp, car.rpm_hp->0))))
            || (x == ("rpm_tq"@, "expected between 500 and 12 000"@) && (car.rpm_tq is Some && (holds(lt, car.rpm_tq->0, limits.min_rpm_tq) || holds(lt, limits.max_rpm_tq, car.rpm_tq->0))))
            || (x == ("redline"@, "expected between 2 000 and 20 000"@) && (car.redline is Some && (holds(lt, car.redline->0, limits.min_redline) || holds(lt, limits.max_redline, car.redline->0))))
            || (x == ("rpm_tq"@, "peak torque RPM should be lower than peak HP RPM"@) && (car.rpm_tq is Some && car.rpm_hp is Some && holds(le, car.rpm_hp->0, car.rpm_tq->0)))
            || (x == ("redline"@, "redline should be above peak HP RPM"@) && (car.redline is Some && car.rpm_hp is Some && holds(le, car.redline->0, car.rpm_hp->0)))),
{
    broadcast use vstd::seq_lib::lemma_seq_concat_contains_all_elements;
    broadcast use vstd::seq_lib::lemma_seq_empty_contains_nothing;
    broadcast use lemma_warn_if_contains;

}

proof fn lemma_chassis_contains<N, L: Fn(N, N) -> bool, E: Fn(N, N) -> bool>(
    car: CarInput<N>,
    limits: ValidationLimits<N>,
    lt: L,
    le: E,
    x: (Seq<char>, Seq<char>),
)
    ensures
        chassis_warnings(car, limits, lt, le).contains(x) <==> ((x == ("final_drive"@, "must be positive"@) && (car.final_drive is Some && holds(le, car.final_drive->0, limits.zero)))
            || (x == ("cd"@, "expected between 0.10 and 1.00"@) && (car.cd is Some && (holds(lt, car.cd->0, limits.min_cd) || holds(lt, limits.max_cd, car.cd->0))))
            || (x == ("frontal_area_sqft"@, "expected between 10 and 50 sq ft"@) && (car.frontal_area_sqft is Some && (holds(lt, car.frontal_area_sqft->0, limits.min_frontal_area_sqft) || holds(lt, limits.max_frontal_area_sqft, car.frontal_area_sqft->0))))
            || (x == ("tire_diameter_in"@, "expected between 15 and 40 inches"@) && (car.tire_diameter_in is Some && (holds(lt, car.tire_diameter_in->0, limits.min_tire_diameter_in) || holds(lt, limits.max_tire_diameter_in, car.tire_diameter_in->0))))
            || (x == ("tire_mu"@, "expected between 0.3 and 2.5"@) && (car.tire_mu is Some && (holds(lt, car.tire_mu->0, limits.min_tire_mu) || holds(lt, limits.max_tire_mu, car.tire_mu->0))))
            || (x == ("weight_dist_rear_pct"@, "expected between 20% and 80%"@) && (car.weight_dist_rear_pct is Some && (holds(lt, car.weight_dist_rear_pct->0, limits.min_weight_dist_rear_pct) || holds(lt, limits.max_weight_dist_rear_pct, car.weight_dist_rear_pct->0))))
            || (x == ("drivetrain_loss_pct"@, "expected between 0% and 50%"@) && (car.drivetrain_loss_pct is Some && (holds(lt, car.drivetrain_loss_pct->0, limits.min_drivetrain_loss_pct) || holds(lt, limits.max_drivetrain_loss_pct, car.drivetrain_loss_pct->0))))),
{
    broadcast use vstd::seq_lib::lemma_seq_concat_contains_all_elements;
    broadcast use vstd::seq_lib::lemma_seq_empty_contains_nothing;
    broadcast use lemma_warn_if_contains;

}

proof fn lemma_nonpositive_gear_messages<N, E: Fn(N, N) -> bool>(le: E, gears: Seq<N>, zero: N, n: int)
    ensures
        forall|y: (Seq<char>, Seq<char>)|
            #[trigger] nonpositive_gear_warnings(le, gears, zero, n).contains(y) ==> y.0 == "gears"@
                && y.1.len() > 0 && y.1[0] == 'g',
    decreases n,
{
    broadcast use vstd::seq_lib::lemma_seq_concat_contains_all_elements;
    broadcast use vstd::seq_lib::lemma_seq_empty_contains_nothing;
    broadcast use lemma_warn_if_contains;
    broadcast use vstd::string::group_string_axioms;

    reveal_strlit("gear ");
    assert("gear "@ =~= seq!['g', 'e', 'a', 'r', ' ']);
    if n > 0 {
        lemma_nonpositive_gear_messages(le, gears, zero, n - 1);
        let m = "gear "@ + decimal((n - 1) as nat) + " ratio must be positive"@;
        assert(m[0] == 'g');
        let prev = nonpositive_gear_warnings(le, gears, zero, n - 1);
        let piece = warn_if(holds(le, gears[n - 1], zero), "gears"@, m);
        assert forall|y: (Seq<char>, Seq<char>)|
            #[trigger] nonpositive_gear_warnings(le, gears, zero, n).contains(y) implies y.0 == "gears"@
                && y.1.len() > 0 && y.1[0] == 'g' by {
            assert(nonpositive_gear_warnings(le, gears, zero, n) == prev + piece);
            if prev.contains(y) {
            } else {
                assert(piece.contains(y));
                assert(y == ("gears"@, m));
            }
        }
    } else {
        assert(nonpositive_gear_warnings(le, gears, zero, n) =~= Seq::<(Seq<char>, Seq<char>)>::empty());
    }
}

proof fn lemma_nonpositive_gear_listed<N, E: Fn(N, N) -> bool>(le: E, gears: Seq<N>, zero: N, i: int, n: int)
    requires
        0 <= i < n,
        holds(le, gears[i], zero),
    ensures
        nonpositive_gear_warnings(le, gears, zero, n).contains(
            ("gears"@, "gear "@ + decimal(i as nat) + " ratio must be positive"@),
        ),
    decreases n,
{
    broadcast use vstd::seq_lib::lemma_seq_concat_contains_all_elements;
    broadcast use lemma_warn_if_contains;

    if n - 1 != i {
        lemma_nonpositive_gear_listed(le, gears, zero, i, n - 1);
    }
}

proof fn lemma_gear_part_contains<N, L: Fn(N, N) -> bool, E: Fn(N, N) -> bool>(
    car: CarInput<N>,
    limits: ValidationLimits<N>,
    lt: L,
    le: E,
    x: (Seq<char>, Seq<char>),
)
    ensures
        gear_part(car, limits, le).contains(x) ==> x.0 == "gears"@,
        gear_part(car, limits, le).contains(("gears"@, "must have at least one gear"@)) <==> (car.gears is Some && car.gears->0@.len() == 0),
        gear_part(car, limits, le).contains(("gears"@, "ratios should be descending (highest first)"@))
            <==> (car.gears is Some && exists|i: int| 0 <= i && i + 1 < car.gears->0@.len() && #[trigger] holds(le, car.gears->0@[i], car.gears->0@[i + 1])),
        forall|i: int|
            car.gears is Some && 0 <= i < car.gears->0@.len() && holds(le, car.gears->0@[i], limits.zero)
                ==> #[trigger] gear_part(car, limits, le).contains(
                ("gears"@, "gear "@ + decimal(i as nat) + " ratio must be positive"@),
            ),
{
    broadcast use vstd::seq_lib::lemma_seq_concat_contains_all_elements;
    broadcast use vstd::seq_lib::lemma_seq_empty_contains_nothing;
    broadcast use lemma_warn_if_contains;
    broadcast use vstd::string::group_string_axioms;

    reveal_strlit("must have at least one gear");
    assert("must have at least one gear"@[0] == 'm');
    reveal_strlit("ratios should be descending (highest first)");
    assert("ratios should be descending (highest first)"@[0] == 'r');
    if car.gears is Some {
        let g = car.gears->0@;
        lemma_nonpositive_gear_messages(le, g, limits.zero, g.len() as int);
        assert forall|i: int|
            0 <= i < g.len() && holds(le, g[i], limits.zero) implies #[trigger] gear_part(
            car,
            limits,
            le,
        ).contains(("gears"@, "gear "@ + decimal(i as nat) + " ratio must be positive"@)) by {
            lemma_nonpositive_gear_listed(le, g, limits.zero, i, g.len() as int);
        }
    }
}

/// What each warning means: the validator reports a warning exactly when the
/// condition it describes holds of the input (a value at or below zero for
/// "must be positive", a value below the lower or above the upper bound for
/// a range, a peak-torque rpm not below the peak-power rpm, a redline not
/// above it, no gears, a gear not above the next one); and each gear ratio at
/// or below zero is reported with its position.
pub proof fn lemma_warning_meaning<N, L: Fn(N, N) -> bool, E: Fn(N, N) -> bool>(
    car: CarInput<N>,
    limits: ValidationLimits<N>,
    lt: L,
    le: E,
)
    ensures
        expected_warnings(car, limits, lt, le).contains(("weight_lbs"@, "must be positive"@)) <==> (holds(le, car.weight_lbs, limits.zero)),
        expected_warnings(car, limits, lt, le).contains(("hp_peak"@, "must be positive"@)) <==> (holds(le, car.hp_peak, limits.zero)),
        expected_warnings(car, limits, lt, le).contains(("weight_lbs"@, "unusually high (> 15 000 lbs) — double-check value"@)) <==> (holds(lt, limits.max_weight_lbs, car.weight_lbs)),
        expected_warnings(car, limits, lt, le).contains(("hp_peak"@, "unusually high (> 5 000 HP) — double-check value"@)) <==> (holds(lt, limits.max_hp, car.hp_peak)),
        expected_warnings(car, limits, lt, le).contains(("tq_peak"@, "must be positive"@)) <==> (car.tq_peak is Some && holds(le, car.tq_peak->0, limits.zero)),
        expected_warnings(car, limits, lt, le).contains(("rpm_hp"@, "expected between 1 000 and 15 000"@)) <==> (car.rpm_hp is Some && (holds(lt, car.rpm_hp->0, limits.min_rpm_hp) || holds(lt, limits.max_rpm_hp, car.rpm_hp->0))),
        expected_warnings(car, limits, lt, le).contains(("rpm_tq"@, "expected between 500 and 12 000"@)) <==> (car.rpm_tq is Some && (holds(lt, car.rpm_tq->0, limits.min_rpm_tq) || holds(lt, limits.max_rpm_tq, car.rpm_tq->0))),
        expected_warnings(car, limits, lt, le).contains(("redline"@, "expected between 2 000 and 20 000"@)) <==> (car.redline is Some && (holds(lt, car.redline->0, limits.min_redline) || holds(lt, limits.max_redline, car.redline->0))),
        expected_warnings(car, limits, lt, le).contains(("rpm_tq"@, "peak torque RPM should be lower than peak HP RPM"@)) <==> (car.rpm_tq is Some && car.rpm_hp is Some && holds(le, car.rpm_hp->0, car.rpm_tq->0)),
        expected_warnings(car, limits, lt, le).contains(("redline"@, "redline should be above peak HP RPM"@)) <==> (car.redline is Some && car.rpm_hp is Some && holds(le, car.redline->0, car.rpm_hp->0)),
        expected_warnings(car, limits, lt, le).contains(("gears"@, "must have at least one gear"@)) <==> (car.gears is Some && car.gears->0@.len() == 0),
        expected_warnings(car, limits, lt, le).contains(("gears"@, "ratios should be descending (highest first)"@)) <==> (car.gears is Some && exists|i: int| 0 <= i && i + 1 < car.gears->0@.len() && #[trigger] holds(le, car.gears->0@[i], car.gears->0@[i + 1])),
        expected_warnings(car, limits, lt, le).contains(("final_drive"@, "must be positive"@)) <==> (car.final_drive is Some && holds(le, car.final_drive->0, limits.zero)),
        expected_warnings(car, limits, lt, le).contains(("cd"@, "expected between 0.10 and 1.00"@)) <==> (car.cd is Some && (holds(lt, car.cd->0, limits.min_cd) || holds(lt, limits.max_cd, car.cd->0))),
        expected_warnings(car, limits, lt, le).contains(("frontal_area_sqft"@, "expected between 10 and 50 sq ft"@)) <==> (car.frontal_area_sqft is Some && (holds(lt, car.frontal_area_sqft->0, limits.min_frontal_area_sqft) || holds(lt, limits.max_frontal_area_sqft, car.frontal_area_sqft->0))),
        expected_warnings(car, limits, lt, le).contains(("tire_diameter_in"@, "expected between 15 and 40 inches"@)) <==> (car.tire_diameter_in is Some && (holds(lt, car.tire_diameter_in->0, limits.min_tire_diameter_in) || holds(lt, limits.max_tire_diameter_in, car.tire_diameter_in->0))),
        expected_warnings(car, limits, lt, le).contains(("tire_mu"@, "expected between 0.3 and 2.5"@)) <==> (car.tire_mu is Some && (holds(lt, car.tire_mu->0, limits.min_tire_mu) || holds(lt, limits.max_tire_mu, car.tire_mu->0))),
        expected_warnings(car, limits, lt, le).contains(("weight_dist_rear_pct"@, "expected between 20% and 80%"@)) <==> (car.weight_dist_rear_pct is Some && (holds(lt, car.weight_dist_rear_pct->0, limits.min_weight_dist_rear_pct) || holds(lt, limits.max_weight_dist_rear_pct, car.weight_dist_rear_pct->0))),
        expected_warnings(car, limits, lt, le).contains(("drivetrain_loss_pct"@, "expected between 0% and 50%"@)) <==> (car.drivetrain_loss_pct is Some && (holds(lt, car.drivetrain_loss_pct->0, limits.min_drivetrain_loss_pct) || holds(lt, limits.max_drivetrain_loss_pct, car.drivetrain_loss_pct->0))),
        forall|i: int|
            car.gears is Some && 0 <= i < car.gears->0@.len() && holds(le, car.gears->0@[i], limits.zero)
                ==> #[trigger] expected_warnings(car, limits, lt, le).contains(
                ("gears"@, "gear "@ + decimal(i as nat) + " ratio must be positive"@),
            ),
{
    broadcast use vstd::seq_lib::lemma_seq_concat_contains_all_elements;
    broadcast use vstd::string::group_string_axioms;

    reveal_strlit("cd");
    assert("cd"@ =~= seq!['c', 'd']);
    reveal_strlit("drivetrain_loss_pct");
    assert("drivetrain_loss_pct"@ =~= seq!['d', 'r', 'i', 'v', 'e', 't', 'r', 'a', 'i', 'n', '_', 'l', 'o', 's', 's', '_', 'p', 'c', 't']);
    reveal_strlit("expected between 0% and 50%");
    assert("expected between 0% and 50%"@ =~= seq!['e', 'x', 'p', 'e', 'c', 't', 'e', 'd', ' ', 'b', 'e', 't', 'w', 'e', 'e', 'n', ' ', '0', '%', ' ', 'a', 'n', 'd', ' ', '5', '0', '%']);
    reveal_strlit("expected between 0.10 and 1.00");
    assert("expected between 0.10 and 1.00"@ =~= seq!['e', 'x', 'p', 'e', 'c', 't', 'e', 'd', ' ', 'b', 'e', 't', 'w', 'e', 'e', 'n', ' ', '0', '.', '1', '0', ' ', 'a', 'n', 'd', ' ', '1', '.', '0', '0']);
    reveal_strlit("expected between 0.3 and 2.5");
    assert("expected between 0.3 and 2.5"@ =~= seq!['e', 'x', 'p', 'e', 'c', 't', 'e', 'd', ' ', 'b', 'e', 't', 'w', 'e', 'e', 'n', ' ', '0', '.', '3', ' ', 'a', 'n', 'd', ' ', '2', '.', '5']);
    reveal_strlit("expected between 1 000 and 15 000");
    assert("expected between 1 000 and 15 000"@ =~= seq!['e', 'x', 'p', 'e', 'c', 't', 'e', 'd', ' ', 'b', 'e', 't', 'w', 'e', 'e', 'n', ' ', '1', ' ', '0', '0', '0', ' ', 'a', 'n', 'd', ' ', '1', '5', ' ', '0', '0', '0']);
    reveal_strlit("expected between 10 and 50 sq ft");
    assert("expected between 10 and 50 sq ft"@ =~= seq!['e', 'x', 'p', 'e', 'c', 't', 'e', 'd', ' ', 'b', 'e', 't', 'w', 'e', 'e', 'n', ' ', '1', '0', ' ', 'a', 'n', 'd', ' ', '5', '0', ' ', 's', 'q', ' ', 'f', 't']);
    reveal_strlit("expected between 15 and 40 inches");
    assert("expected between 15 and 40 inches"@ =~= seq!['e', 'x', 'p', 'e', 'c', 't', 'e', 'd', ' ', 'b', 'e', 't', 'w', 'e', 'e', 'n', ' ', '1', '5', ' ', 'a', 'n', 'd', ' ', '4', '0', ' ', 'i', 'n', 'c', 'h', 'e', 's']);
    reveal_strlit("expected between 2 000 and 20 000");
    assert("expected between 2 000 and 20 000"@ =~= seq!['e', 'x', 'p', 'e', 'c', 't', 'e', 'd', ' ', 'b', 'e', 't', 'w', 'e', 'e', 'n', ' ', '2', ' ', '0', '0', '0', ' ', 'a', 'n', 'd', ' ', '2', '0', ' ', '0', '0', '0']);
    reveal_strlit("expected between 20% and 80%");
    assert("expected between 20% and 80%"@ =~= seq!['e', 'x', 'p', 'e', 'c', 't', 'e', 'd', ' ', 'b', 'e', 't', 'w', 'e', 'e', 'n', ' ', '2', '0', '%', ' ', 'a', 'n', 'd', ' ', '8', '0', '%']);
    reveal_strlit("expected between 500 and 12 000");
    assert("expected between 500 and 12 000"@ =~= seq!['e', 'x', 'p', 'e', 'c', 't', 'e', 'd', ' ', 'b', 'e', 't', 'w', 'e', 'e', 'n', ' ', '5', '0', '0', ' ', 'a', 'n', 'd', ' ', '1', '2', ' ', '0', '0', '0']);
    reveal_strlit("final_drive");
    assert("final_drive"@ =~= seq!['f', 'i', 'n', 'a', 'l', '_', 'd', 'r', 'i', 'v', 'e']);
    reveal_strlit("frontal_area_sqft");
    assert("frontal_area_sqft"@ =~= seq!['f', 'r', 'o', 'n', 't', 'a', 'l', '_', 'a', 'r', 'e', 'a', '_', 's', 'q', 'f', 't']);
    reveal_strlit("gears");
    assert("gears"@ =~= seq!['g', 'e', 'a', 'r', 's']);
    reveal_strlit("hp_peak");
    assert("hp_peak"@ =~= seq!['h', 'p', '_', 'p', 'e', 'a', 'k']);
    reveal_strlit("must be positive");
    assert("must be positive"@ =~= seq!['m', 'u', 's', 't', ' ', 'b', 'e', ' ', 'p', 'o', 's', 'i', 't', 'i', 'v', 'e']);
    reveal_strlit("must have at least one gear");
    assert("must have at least one gear"@ =~= seq!['m', 'u', 's', 't', ' ', 'h', 'a', 'v', 'e', ' ', 'a', 't', ' ', 'l', 'e', 'a', 's', 't', ' ', 'o', 'n', 'e', ' ', 'g', 'e', 'a', 'r']);
    reveal_strlit("peak torque RPM should be lower than peak HP RPM");
    assert("peak torque RPM should be lower than peak HP RPM"@ =~= seq!['p', 'e', 'a', 'k', ' ', 't', 'o', 'r', 'q', 'u', 'e', ' ', 'R', 'P', 'M', ' ', 's', 'h', 'o', 'u', 'l', 'd', ' ', 'b', 'e', ' ', 'l', 'o', 'w', 'e', 'r', ' ', 't', 'h', 'a', 'n', ' ', 'p', 'e', 'a', 'k', ' ', 'H', 'P', ' ', 'R', 'P', 'M']);
    reveal_strlit("ratios should be descending (highest first)");
    assert("ratios should be descending (highest first)"@ =~= seq!['r', 'a', 't', 'i', 'o', 's', ' ', 's', 'h', 'o', 'u', 'l', 'd', ' ', 'b', 'e', ' ', 'd', 'e', 's', 'c', 'e', 'n', 'd', 'i', 'n', 'g', ' ', '(', 'h', 'i', 'g', 'h', 'e', 's', 't', ' ', 'f', 'i', 'r', 's', 't', ')']);
    reveal_strlit("redline");
    assert("redline"@ =~= seq!['r', 'e', 'd', 'l', 'i', 'n', 'e']);
    reveal_strlit("redline should be above peak HP RPM");
    assert("redline should be above peak HP RPM"@ =~= seq!['r', 'e', 'd', 'l', 'i', 'n', 'e', ' ', 's', 'h', 'o', 'u', 'l', 'd', ' ', 'b', 'e', ' ', 'a', 'b', 'o', 'v', 'e', ' ', 'p', 'e', 'a', 'k', ' ', 'H', 'P', ' ', 'R', 'P', 'M']);
    reveal_strlit("rpm_hp");
    assert("rpm_hp"@ =~= seq!['r', 'p', 'm', '_', 'h', 'p']);
    reveal_strlit("rpm_tq");
    assert("rpm_tq"@ =~= seq!['r', 'p', 'm', '_', 't', 'q']);
    reveal_strlit("tire_diameter_in");
    assert("tire_diameter_in"@ =~= seq!['t', 'i', 'r', 'e', '_', 'd', 'i', 'a', 'm', 'e', 't', 'e', 'r', '_', 'i', 'n']);
    reveal_strlit("tire_mu");
    assert("tire_mu"@ =~= seq!['t', 'i', 'r', 'e', '_', 'm', 'u']);
    reveal_strlit("tq_peak");
    assert("tq_peak"@ =~= seq!['t', 'q', '_', 'p', 'e', 'a', 'k']);
    reveal_strlit("unusually high (> 15 000 lbs) — double-check value");
    assert("unusually high (> 15 000 lbs) — double-check value"@ =~= seq!['u', 'n', 'u', 's', 'u', 'a', 'l', 'l', 'y', ' ', 'h', 'i', 'g', 'h', ' ', '(', '>', ' ', '1', '5', ' ', '0', '0', '0', ' ', 'l', 'b', 's', ')', ' ', '—', ' ', 'd', 'o', 'u', 'b', 'l', 'e', '-', 'c', 'h', 'e', 'c', 'k', ' ', 'v', 'a', 'l', 'u', 'e']);
    reveal_strlit("unusually high (> 5 000 HP) — double-check value");
    assert("unusually high (> 5 000 HP) — double-check value"@ =~= seq!['u', 'n', 'u', 's', 'u', 'a', 'l', 'l', 'y', ' ', 'h', 'i', 'g', 'h', ' ', '(', '>', ' ', '5', ' ', '0', '0', '0', ' ', 'H', 'P', ')', ' ', '—', ' ', 'd', 'o', 'u', 'b', 'l', 'e', '-', 'c', 'h', 'e', 'c', 'k', ' ', 'v', 'a', 'l', 'u', 'e']);
    reveal_strlit("weight_dist_rear_pct");
    assert("weight_dist_rear_pct"@ =~= seq!['w', 'e', 'i', 'g', 'h', 't', '_', 'd', 'i', 's', 't', '_', 'r', 'e', 'a', 'r', '_', 'p', 'c', 't']);
    reveal_strlit("weight_lbs");
    assert("weight_lbs"@ =~= seq!['w', 'e', 'i', 'g', 'h', 't', '_', 'l', 'b', 's']);
    lemma_engine_contains(car, limits, lt, le, ("weight_lbs"@, "must be positive"@));
    lemma_gear_part_contains(car, limits, lt, le, ("weight_lbs"@, "must be positive"@));
    lemma_chassis_contains(car, limits, lt, le, ("weight_lbs"@, "must be positive"@));
    lemma_engine_contains(car, limits, lt, le, ("hp_peak"@, "must be positive"@));
    lemma_gear_part_contains(car, limits, lt, le, ("hp_peak"@, "must be positive"@));
    lemma_chassis_contains(car, limits, lt, le, ("hp_peak"@, "must be positive"@));
    lemma_engine_contains(car, limits, lt, le, ("weight_lbs"@, "unusually high (> 15 000 lbs) — double-check value"@));
    lemma_gear_part_contains(car, limits, lt, le, ("weight_lbs"@, "unusually high (> 15 000 lbs) — double-check value"@));
    lemma_chassis_contains(car, limits, lt, le, ("weight_lbs"@, "unusually high (> 15 000 lbs) — double-check value"@));
    lemma_engine_contains(car, limits, lt, le, ("hp_peak"@, "unusually high (> 5 000 HP) — double-check value"@));
    lemma_gear_part_contains(car, limits, lt, le, ("hp_peak"@, "unusually high (> 5 000 HP) — double-check value"@));
    lemma_chassis_contains(car, limits, lt, le, ("hp_peak"@, "unusually high (> 5 000 HP) — double-check value"@));
    lemma_engine_contains(car, limits, lt, le, ("tq_peak"@, "must be positive"@));
    lemma_gear_part_contains(car, limits, lt, le, ("tq_peak"@, "must be positive"@));
    lemma_chassis_contains(car, limits, lt, le, ("tq_peak"@, "must be positive"@));
    lemma_engine_contains(car, limits, lt, le, ("rpm_hp"@, "expected between 1 000 and 15 000"@));
    lemma_gear_part_contains(car, limits, lt, le, ("rpm_hp"@, "expected between 1 000 and 15 000"@));
    lemma_chassis_contains(car, limits, lt, le, ("rpm_hp"@, "expected between 1 000 and 15 000"@));
    lemma_engine_contains(car, limits, lt, le, ("rpm_tq"@, "expected between 500 and 12 000"@));
    lemma_gear_part_contains(car, limits, lt, le, ("rpm_tq"@, "expected between 500 and 12 000"@));
    lemma_chassis_contains(car, limits, lt, le, ("rpm_tq"@, "expected between 500 and 12 000"@));
    lemma_engine_contains(car, limits, lt, le, ("redline"@, "expected between 2 000 and 20 000"@));
    lemma_gear_part_contains(car, limits, lt, le, ("redline"@, "expected between 2 000 and 20 000"@));
    lemma_chassis_contains(car, limits, lt, le, ("redline"@, "expected between 2 000 and 20 000"@));
    lemma_engine_contains(car, limits, lt, le, ("rpm_tq"@, "peak torque RPM should be lower than peak HP RPM"@));
    lemma_gear_part_contains(car, limits, lt, le, ("rpm_tq"@, "peak torque RPM should be lower than peak HP RPM"@));
    lemma_chassis_contains(car, limits, lt, le, ("rpm_tq"@, "peak torque RPM should be lower than peak HP RPM"@));
    lemma_engine_contains(car, limits, lt, le, ("redline"@, "redline should be above peak HP RPM"@));
    lemma_gear_part_contains(car, limits, lt, le, ("redline"@, "redline should be above peak HP RPM"@));
    lemma_chassis_contains(car, limits, lt, le, ("redline"@, "redline should be above peak HP RPM"@));
    lemma_engine_contains(car, limits, lt, le, ("gears"@, "must have at least one gear"@));
    lemma_gear_part_contains(car, limits, lt, le, ("gears"@, "must have at least one gear"@));
    lemma_chassis_contains(car, limits, lt, le, ("gears"@, "must have at least one gear"@));
    lemma_engine_contains(car, limits, lt, le, ("gears"@, "ratios should be descending (highest first)"@));
    lemma_gear_part_contains(car, limits, lt, le, ("gears"@, "ratios should be descending (highest first)"@));
    lemma_chassis_contains(car, limits, lt, le, ("gears"@, "ratios should be descending (highest first)"@));
    lemma_engine_contains(car, limits, lt, le, ("final_drive"@, "must be positive"@));
    lemma_gear_part_contains(car, limits, lt, le, ("final_drive"@, "must be positive"@));
    lemma_chassis_contains(car, limits, lt, le, ("final_drive"@, "must be positive"@));
    lemma_engine_contains(car, limits, lt, le, ("cd"@, "expected between 0.10 and 1.00"@));
    lemma_gear_part_contains(car, limits, lt, le, ("cd"@, "expected between 0.10 and 1.00"@));
    lemma_chassis_contains(car, limits, lt, le, ("cd"@, "expected between 0.10 and 1.00"@));
    lemma_engine_contains(car, limits, lt, le, ("frontal_area_sqft"@, "expected between 10 and 50 sq ft"@));
    lemma_gear_part_contains(car, limits, lt, le, ("frontal_area_sqft"@, "expected between 10 and 50 sq ft"@));
    lemma_chassis_contains(car, limits, lt, le, ("frontal_area_sqft"@, "expected between 10 and 50 sq ft"@));
    lemma_engine_contains(car, limits, lt, le, ("tire_diameter_in"@, "expected between 15 and 40 inches"@));
    lemma_gear_part_contains(car, limits, lt, le, ("tire_diameter_in"@, "expected between 15 and 40 inches"@));
    lemma_chassis_contains(car, limits, lt, le, ("tire_diameter_in"@, "expected between 15 and 40 inches"@));
    lemma_engine_contains(car, limits, lt, le, ("tire_mu"@, "expected between 0.3 and 2.5"@));
    lemma_gear_part_contains(car, limits, lt, le, ("tire_mu"@, "expected between 0.3 and 2.5"@));
    lemma_chassis_contains(car, limits, lt, le, ("tire_mu"@, "expected between 0.3 and 2.5"@));
    lemma_engine_contains(car, limits, lt, le, ("weight_dist_rear_pct"@, "expected between 20% and 80%"@));
    lemma_gear_part_contains(car, limits, lt, le, ("weight_dist_rear_pct"@, "expected between 20% and 80%"@));
    lemma_chassis_contains(car, limits, lt, le, ("weight_dist_rear_pct"@, "expected between 20% and 80%"@));
    lemma_engine_contains(car, limits, lt, le, ("drivetrain_loss_pct"@, "expected between 0% and 50%"@));
    lemma_gear_part_contains(car, limits, lt, le, ("drivetrain_loss_pct"@, "expected between 0% and 50%"@));
    lemma_chassis_contains(car, limits, lt, le, ("drivetrain_loss_pct"@, "expected between 0% and 50%"@));
    lemma_gear_part_contains(car, limits, lt, le, ("gears"@, "gears"@));
}

} // verus!
