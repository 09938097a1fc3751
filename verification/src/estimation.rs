use vstd::prelude::*;
use vstd::string::*;
use crate::config::{ProfileConfig, ProfileTable, TransmissionProfile, VehicleClassProfile, DrivetrainProfile};
use crate::confidence::{lemma_full_confidence_iff_all_provided, provided_weight, total_weight};
use crate::types::{copy_values, num_fields, CarInput, DriveLayout, FieldSources, Origin, ResolvedCar, ValueSource, layout_label};

verus! {

/// `value` and the origin it is reported with.
pub type Resolved<N> = (N, Origin);

/// `s`, or `"?"` when there is no name.
pub open spec fn name_or_unknown(s: Option<String>) -> Seq<char> {
    match s {
        Some(n) => n@,
        None => "?"@,
    }
}

/// The user's value if there is one, else `fallback`.
pub open spec fn user_or<N>(user: Option<N>, fallback: Resolved<N>) -> Resolved<N> {
    match user {
        Some(v) => (v, Origin::Provided),
        None => fallback,
    }
}

/// User value, else the vehicle-class value, else the global default.
pub open spec fn class_cascade<N>(
    user: Option<N>,
    class_val: Option<N>,
    class_name: Option<String>,
    global: N,
    field: Seq<char>,
) -> Resolved<N> {
    user_or(
        user,
        match class_val {
            Some(v) => (
                v,
                Origin::Profile("vehicle_class."@ + name_or_unknown(class_name) + "."@ + field),
            ),
            None => (global, Origin::Global),
        },
    )
}

fn profile_name(prefix: &str, key: &str) -> (s: String)
    ensures
        s@ == prefix@ + key@,
{
    String::from_str(prefix).concat(key)
}

/// The user's value, else `global` reported as a global default.
fn user_or_global<N: Copy>(user: Option<N>, global: N) -> (res: (N, ValueSource))
    ensures
        (res.0, res.1@) == user_or(user, (global, Origin::Global)),
{
    match user {
        Some(v) => (v, ValueSource::Provided),
        None => (global, ValueSource::GlobalDefault),
    }
}

/// User value, else the vehicle-class value, else the global default.
fn resolve_with_class<N: Copy>(
    user: Option<N>,
    class_val: Option<N>,
    class_name: &Option<String>,
    global: N,
    field: &str,
) -> (res: (N, ValueSource))
    ensures
        (res.0, res.1@) == class_cascade(user, class_val, *class_name, global, field@),
{
    if let Some(v) = user {
        return (v, ValueSource::Provided);
    }
    if let Some(v) = class_val {
        let name = match class_name {
            Some(n) => n.as_str(),
            None => "?",
        };
        let s = String::from_str("vehicle_class.").concat(name).concat(".").concat(field);
        return (v, ValueSource::ProfileDefault { profile_name: s });
    }
    (global, ValueSource::GlobalDefault)
}

/// Applies `f` under `Some`.
pub open spec fn opt_map<P, V>(o: Option<P>, f: spec_fn(P) -> V) -> Option<V> {
    match o {
        Some(p) => Some(f(p)),
        None => None,
    }
}

/// Applies a partial `f` under `Some`.
pub open spec fn opt_then<P, V>(o: Option<P>, f: spec_fn(P) -> Option<V>) -> Option<V> {
    match o {
        Some(p) => f(p),
        None => None,
    }
}

/// The profile stored under `k`, if any.
pub open spec fn lookup<P>(t: ProfileTable<P>, k: Seq<char>) -> Option<P> {
    if t@.contains_key(k) {
        Some(t@[k])
    } else {
        None
    }
}

/// User value, else a profile value reported under `profile`, else `fallback`
/// reported as a global default.
pub open spec fn profile_cascade<V>(
    user: Option<V>,
    profiled: Option<V>,
    profile: Seq<char>,
    fallback: V,
) -> Resolved<V> {
    user_or(
        user,
        match profiled {
            Some(v) => (v, Origin::Profile(profile)),
            None => (fallback, Origin::Global),
        },
    )
}

/// The transmission type a car is resolved against: its own, else `"auto"`.
pub open spec fn transmission_key<N>(input: CarInput<N>) -> Seq<char> {
    match input.transmission_type {
        Some(t) => t@,
        None => "auto"@,
    }
}

/// The transmission profile a car is resolved against.
pub open spec fn transmission_of<N>(input: CarInput<N>, profiles: ProfileConfig<N>) -> Option<
    TransmissionProfile<N>,
> {
    lookup(profiles.transmission, transmission_key(input))
}

/// The drivetrain profile of a car's layout.
pub open spec fn drivetrain_of<N>(input: CarInput<N>, profiles: ProfileConfig<N>) -> Option<
    DrivetrainProfile<N>,
> {
    lookup(profiles.drivetrain, layout_label(input.driven_wheels))
}

/// The vehicle-class profile of a car, when it names a known class.
pub open spec fn class_of<N>(input: CarInput<N>, profiles: ProfileConfig<N>) -> Option<
    VehicleClassProfile<N>,
> {
    match input.vehicle_class {
        Some(c) => match profiles.vehicle_class {
            Some(t) => lookup(t, c@),
            None => None,
        },
        None => None,
    }
}

/// A transmission-level value: the chosen transmission's, else the `"auto"`
/// transmission's (as a global default), else the built-in one.
pub open spec fn transmission_cascade<N, V>(
    user: Option<V>,
    input: CarInput<N>,
    profiles: ProfileConfig<N>,
    field: spec_fn(TransmissionProfile<N>) -> V,
    builtin: V,
) -> Resolved<V> {
    profile_cascade(
        user,
        opt_map(transmission_of(input, profiles), field),
        "transmission."@ + transmission_key(input),
        match lookup(profiles.transmission, "auto"@) {
            Some(a) => field(a),
            None => builtin,
        },
    )
}

/// The view of an optional vector.
pub open spec fn opt_view<N>(o: Option<Vec<N>>) -> Option<Seq<N>> {
    match o {
        Some(v) => Some(v@),
        None => None,
    }
}

/// The last-resort values of the estimation pipeline, used when neither the
/// user nor any profile supplies one.
#[derive(Debug, Clone)]
pub struct BuiltinDefaults<N> {
    pub gears: Vec<N>,
    pub final_drive: N,
    pub shift_time_s: N,
    pub weight_dist_rear_pct: N,
    pub drivetrain_loss_pct: N,
}

/// The default name of an unnamed car: "<hp> HP <layout> car".
pub open spec fn default_name(hp_text: Seq<char>, layout: DriveLayout) -> Seq<char> {
    hp_text + " HP "@ + layout_label(layout) + " car"@
}

fn resolve_profiled<N: Copy>(user: Option<N>, profiled: Option<N>, profile: &str, fallback: N) -> (res: (
    N,
    ValueSource,
))
    ensures
        (res.0, res.1@) == profile_cascade(user, profiled, profile@, fallback),
{
    match user {
        Some(v) => (v, ValueSource::Provided),
        None => match profiled {
            Some(v) => (v, ValueSource::ProfileDefault { profile_name: String::from_str(profile) }),
            None => (fallback, ValueSource::GlobalDefault),
        },
    }
}

fn resolve_profiled_seq<N: Copy>(
    user: &Option<Vec<N>>,
    profiled: Option<&Vec<N>>,
    profile: &str,
    fallback: &Vec<N>,
) -> (res: (Vec<N>, ValueSource))
    ensures
        (res.0@, res.1@) == profile_cascade(
            opt_view(*user),
            match profiled {
                Some(p) => Some(p@),
                None => None,
            },
            profile@,
            fallback@,
        ),
{
    match user {
        Some(v) => (copy_values(v), ValueSource::Provided),
        None => match profiled {
            Some(v) => (
                copy_values(v),
                ValueSource::ProfileDefault { profile_name: String::from_str(profile) },
            ),
            None => (copy_values(fallback), ValueSource::GlobalDefault),
        },
    }
}

/// Drivetrain loss: the user's, else the vehicle class's, else the drive
/// layout's, else the built-in value.
pub open spec fn loss_cascade<N>(input: CarInput<N>, profiles: ProfileConfig<N>, builtin: N) -> Resolved<N> {
    user_or(
        input.drivetrain_loss_pct,
        match opt_then(class_of(input, profiles), |c: VehicleClassProfile<N>| c.drivetrain_loss_pct) {
            Some(v) => (v, Origin::Profile("vehicle_class."@ + name_or_unknown(input.vehicle_class))),
            None => match drivetrain_of(input, profiles) {
                Some(d) => (
                    d.loss_pct,
                    Origin::Profile("drivetrain."@ + layout_label(input.driven_wheels)),
                ),
                None => (builtin, Origin::Global),
            },
        },
    )
}

/// `car` is the resolution of `input` against `profiles`: every value and
/// origin as `resolve_car` chooses them.
pub open spec fn resolves<N, RT: Fn(N) -> N, RL: Fn(N) -> N>(
    input: CarInput<N>,
    profiles: ProfileConfig<N>,
    builtin: BuiltinDefaults<N>,
    tq_from_hp: N,
    rpm_tq_for: RT,
    redline_for: RL,
    hp_text: Seq<char>,
    car: ResolvedCar<N>,
) -> bool {
    let eng = profiles.engine_defaults;
    let chassis = profiles.chassis_defaults;
    let class = class_of(input, profiles);
    let src = car.sources;
    &&& car.name@ == match input.name {
        Some(n) => n@,
        None => default_name(hp_text, input.driven_wheels),
    }
    &&& car.weight_lbs == input.weight_lbs
    &&& car.hp_peak == input.hp_peak
    &&& car.driven_wheels == input.driven_wheels
    &&& (car.tq_peak, src.tq_peak@) == user_or(input.tq_peak, (tq_from_hp, Origin::Global))
    &&& (car.rpm_hp, src.rpm_hp@) == user_or(input.rpm_hp, (eng.default_rpm_hp, Origin::Global))
    &&& match input.rpm_tq {
        Some(v) => car.rpm_tq == v && src.rpm_tq@ == Origin::Provided,
        None => rpm_tq_for.ensures((car.rpm_hp,), car.rpm_tq) && src.rpm_tq@ == Origin::Global,
    }
    &&& match input.redline {
        Some(v) => car.redline == v && src.redline@ == Origin::Provided,
        None => redline_for.ensures((car.rpm_hp,), car.redline) && src.redline@
            == Origin::Global,
    }
    &&& (car.gears@, src.gears@) == transmission_cascade(
        opt_view(input.gears),
        input,
        profiles,
        |t: TransmissionProfile<N>| t.gears@,
        builtin.gears@,
    )
    &&& (car.final_drive, src.final_drive@) == transmission_cascade(
        input.final_drive,
        input,
        profiles,
        |t: TransmissionProfile<N>| t.final_drive,
        builtin.final_drive,
    )
    &&& (car.shift_time_s, src.shift_time_s@) == transmission_cascade(
        input.shift_time_s,
        input,
        profiles,
        |t: TransmissionProfile<N>| t.shift_time_s,
        builtin.shift_time_s,
    )
    &&& (car.cd, src.cd@) == class_cascade(
        input.cd,
        opt_then(class, |c: VehicleClassProfile<N>| c.cd),
        input.vehicle_class,
        chassis.cd,
        "cd"@,
    )
    &&& (car.frontal_area_sqft, src.frontal_area_sqft@) == class_cascade(
        input.frontal_area_sqft,
        opt_then(class, |c: VehicleClassProfile<N>| c.frontal_area_sqft),
        input.vehicle_class,
        chassis.frontal_area_sqft,
        "frontal_area_sqft"@,
    )
    &&& (car.tire_diameter_in, src.tire_diameter_in@) == user_or(
        input.tire_diameter_in,
        (chassis.tire_diameter_in, Origin::Global),
    )
    &&& (car.cg_height_in, src.cg_height_in@) == class_cascade(
        input.cg_height_in,
        opt_then(class, |c: VehicleClassProfile<N>| c.cg_height_in),
        input.vehicle_class,
        chassis.cg_height_in,
        "cg_height_in"@,
    )
    &&& (car.wheelbase_in, src.wheelbase_in@) == class_cascade(
        input.wheelbase_in,
        opt_then(class, |c: VehicleClassProfile<N>| c.wheelbase_in),
        input.vehicle_class,
        chassis.wheelbase_in,
        "wheelbase_in"@,
    )
    &&& (car.tire_mu, src.tire_mu@) == class_cascade(
        input.tire_mu,
        opt_then(class, |c: VehicleClassProfile<N>| c.tire_mu),
        input.vehicle_class,
        chassis.tire_mu,
        "tire_mu"@,
    )
    &&& (car.weight_dist_rear_pct, src.weight_dist_rear_pct@) == profile_cascade(
        input.weight_dist_rear_pct,
        opt_map(
            drivetrain_of(input, profiles),
            |d: DrivetrainProfile<N>| d.weight_dist_rear_pct,
        ),
        "drivetrain."@ + layout_label(input.driven_wheels),
        builtin.weight_dist_rear_pct,
    )
    &&& (car.drivetrain_loss_pct, src.drivetrain_loss_pct@) == loss_cascade(
        input,
        profiles,
        builtin.drivetrain_loss_pct,
    )
    &&& (car.launch_rpm, src.launch_rpm@) == user_or(
        input.launch_rpm,
        (eng.default_launch_rpm, Origin::Global),
    )
        }

/// Resolves a partial car into a fully populated one.  Each missing field is
/// filled from the most specific source that has it: the vehicle-class
/// profile, the transmission or drivetrain profile, derivation from other
/// values, the global defaults, and finally the built-in values; each value
/// is tagged with where it came from.  `tq_from_hp` is the torque estimated
/// from the peak horsepower, `rpm_tq_for` and `redline_for` derive the
/// peak-torque rpm and the redline from the resolved peak-power rpm, and
/// `hp_text` is the printed peak horsepower used in a default name.
pub fn resolve_car<N: Copy, RT: Fn(N) -> N, RL: Fn(N) -> N>(
    input: &CarInput<N>,
    profiles: &ProfileConfig<N>,
    builtin: &BuiltinDefaults<N>,
    tq_from_hp: N,
    rpm_tq_for: RT,
    redline_for: RL,
    hp_text: &str,
) -> (res: Result<ResolvedCar<N>, String>)
    requires
        forall|x: N| rpm_tq_for.requires((x,)),
        forall|x: N| redline_for.requires((x,)),
    ensures
        res matches Ok(car) && resolves(
            *input,
            *profiles,
            *builtin,
            tq_from_hp,
            rpm_tq_for,
            redline_for,
            hp_text@,
            car,
        ),
{
    let layout_key = input.driven_wheels.to_string();
    let dt_profile = profiles.drivetrain.get(layout_key.as_str());
    let trans_key: String = match &input.transmission_type {
        Some(t) => t.clone(),
        None => String::from_str("auto"),
    };
    let trans_profile = profiles.transmission.get(trans_key.as_str());
    let auto_profile = profiles.transmission.get("auto");
    let class_profile: Option<&VehicleClassProfile<N>> = match &input.vehicle_class {
        Some(c) => match &profiles.vehicle_class {
            Some(t) => t.get(c.as_str()),
            None => None,
        },
        None => None,
    };
    let eng = &profiles.engine_defaults;
    let chassis = &profiles.chassis_defaults;

    let (tq_peak, src_tq) = user_or_global(input.tq_peak, tq_from_hp);
    let (rpm_hp, src_rpm_hp) = user_or_global(input.rpm_hp, eng.default_rpm_hp);
    let (rpm_tq, src_rpm_tq) = match input.rpm_tq {
        Some(v) => (v, ValueSource::Provided),
        None => (rpm_tq_for(rpm_hp), ValueSource::GlobalDefault),
    };
    let (redline, src_redline) = match input.redline {
        Some(v) => (v, ValueSource::Provided),
        None => (redline_for(rpm_hp), ValueSource::GlobalDefault),
    };

    let trans_label = profile_name("transmission.", trans_key.as_str());
    let (gears, src_gears) = resolve_profiled_seq(
        &input.gears,
        match trans_profile {
            Some(tp) => Some(&tp.gears),
            None => None,
        },
        trans_label.as_str(),
        match auto_profile {
            Some(a) => &a.gears,
            None => &builtin.gears,
        },
    );
    let (final_drive, src_fd) = resolve_profiled(
        input.final_drive,
        match trans_profile {
            Some(tp) => Some(tp.final_drive),
            None => None,
        },
        trans_label.as_str(),
        match auto_profile {
            Some(a) => a.final_drive,
            None => builtin.final_drive,
        },
    );
    let (shift_time_s, src_shift) = resolve_profiled(
        input.shift_time_s,
        match trans_profile {
            Some(tp) => Some(tp.shift_time_s),
            None => None,
        },
        trans_label.as_str(),
        match auto_profile {
            Some(a) => a.shift_time_s,
            None => builtin.shift_time_s,
        },
    );

    let (cd, src_cd) = resolve_with_class(
        input.cd,
        match class_profile {
            Some(c) => c.cd,
            None => None,
        },
        &input.vehicle_class,
        chassis.cd,
        "cd",
    );
    let (frontal_area_sqft, src_fa) = resolve_with_class(
        input.frontal_area_sqft,
        match class_profile {
            Some(c) => c.frontal_area_sqft,
            None => None,
        },
        &input.vehicle_class,
        chassis.frontal_area_sqft,
        "frontal_area_sqft",
    );
    let (tire_diameter_in, src_tire) = user_or_global(input.tire_diameter_in, chassis.tire_diameter_in);
    let (cg_height_in, src_cg) = resolve_with_class(
        input.cg_height_in,
        match class_profile {
            Some(c) => c.cg_height_in,
            None => None,
        },
        &input.vehicle_class,
        chassis.cg_height_in,
        "cg_height_in",
    );
    let (wheelbase_in, src_wb) = resolve_with_class(
        input.wheelbase_in,
        match class_profile {
            Some(c) => c.wheelbase_in,
            None => None,
        },
        &input.vehicle_class,
        chassis.wheelbase_in,
        "wheelbase_in",
    );
    let (tire_mu, src_mu) = resolve_with_class(
        input.tire_mu,
        match class_profile {
            Some(c) => c.tire_mu,
            None => None,
        },
        &input.vehicle_class,
        chassis.tire_mu,
        "tire_mu",
    );

    let dt_label = profile_name("drivetrain.", layout_key.as_str());
    let (weight_dist_rear_pct, src_wd) = resolve_profiled(
        input.weight_dist_rear_pct,
        match dt_profile {
            Some(dp) => Some(dp.weight_dist_rear_pct),
            None => None,
        },
        dt_label.as_str(),
        builtin.weight_dist_rear_pct,
    );

    let class_loss = match class_profile {
        Some(c) => c.drivetrain_loss_pct,
        None => None,
    };
    let (drivetrain_loss_pct, src_dl) = match input.drivetrain_loss_pct {
        Some(v) => (v, ValueSource::Provided),
        None => match class_loss {
            Some(v) => {
                let name = match &input.vehicle_class {
                    Some(n) => n.as_str(),
                    None => "?",
                };
                (v, ValueSource::ProfileDefault { profile_name: profile_name("vehicle_class.", name) })
            },
            None => match dt_profile {
                Some(dp) => (
                    dp.loss_pct,
                    ValueSource::ProfileDefault { profile_name: dt_label.clone() },
                ),
                None => (builtin.drivetrain_loss_pct, ValueSource::GlobalDefault),
            },
        },
    };

    let (launch_rpm, src_launch) = user_or_global(input.launch_rpm, eng.default_launch_rpm);

    let name = match &input.name {
        Some(n) => n.clone(),
        None => String::from_str(hp_text).concat(" HP ").concat(layout_key.as_str()).concat(" car"),
    };

    Ok(ResolvedCar {
        name,
        weight_lbs: input.weight_lbs,
        hp_peak: input.hp_peak,
        driven_wheels: input.driven_wheels,
        tq_peak,
        rpm_hp,
        rpm_tq,
        redline,
        gears,
        final_drive,
        cd,
        frontal_area_sqft,
        tire_diameter_in,
        shift_time_s,
        launch_rpm,
        cg_height_in,
        wheelbase_in,
        weight_dist_rear_pct,
        tire_mu,
        drivetrain_loss_pct,
        sources: FieldSources {
            tq_peak: src_tq,
            rpm_hp: src_rpm_hp,
            rpm_tq: src_rpm_tq,
            redline: src_redline,
            gears: src_gears,
            final_drive: src_fd,
            shift_time_s: src_shift,
            cd: src_cd,
            frontal_area_sqft: src_fa,
            tire_diameter_in: src_tire,
            cg_height_in: src_cg,
            wheelbase_in: src_wb,
            weight_dist_rear_pct: src_wd,
            tire_mu: src_mu,
            drivetrain_loss_pct: src_dl,
            launch_rpm: src_launch,
        },
    })
}

/// The gearing of a car: the user's if given; else the profile of the car's
/// transmission type (`"auto"` when none is named), reported under
/// "transmission.<type>"; else, when no profile has that name, the `"auto"`
/// profile's, else the built-in value, both reported as global defaults.
pub proof fn lemma_gearing_from_transmission<N, RT: Fn(N) -> N, RL: Fn(N) -> N>(
    input: CarInput<N>,
    profiles: ProfileConfig<N>,
    builtin: BuiltinDefaults<N>,
    tq_from_hp: N,
    rpm_tq_for: RT,
    redline_for: RL,
    hp_text: Seq<char>,
    car: ResolvedCar<N>,
    key: Seq<char>,
)
    requires
        resolves(input, profiles, builtin, tq_from_hp, rpm_tq_for, redline_for, hp_text, car),
        key == match input.transmission_type {
            Some(t) => t@,
            None => "auto"@,
        },
    ensures
        input.gears matches Some(g) ==> car.gears@ == g@ && car.sources.gears@ == Origin::Provided,
        input.final_drive matches Some(v) ==> car.final_drive == v && car.sources.final_drive@ == Origin::Provided,
        input.shift_time_s matches Some(v) ==> car.shift_time_s == v && car.sources.shift_time_s@ == Origin::Provided,
        input.final_drive is None && profiles.transmission@.contains_key(key) ==> car.final_drive == profiles.transmission@[key].final_drive
            && car.sources.final_drive@ == Origin::Profile("transmission."@ + key),
        input.final_drive is None && !profiles.transmission@.contains_key(key) && profiles.transmission@.contains_key("auto"@) ==> car.final_drive == profiles.transmission@["auto"@].final_drive
            && car.sources.final_drive@ == Origin::Global,
        input.final_drive is None && !profiles.transmission@.contains_key(key) && !profiles.transmission@.contains_key("auto"@) ==> car.final_drive == builtin.final_drive
            && car.sources.final_drive@ == Origin::Global,
        input.gears is None && profiles.transmission@.contains_key(key) ==> car.gears@ == profiles.transmission@[key].gears@
            && car.sources.gears@ == Origin::Profile("transmission."@ + key),
        input.gears is None && !profiles.transmission@.contains_key(key) && profiles.transmission@.contains_key("auto"@) ==> car.gears@ == profiles.transmission@["auto"@].gears@
            && car.sources.gears@ == Origin::Global,
        input.gears is None && !profiles.transmission@.contains_key(key) && !profiles.transmission@.contains_key("auto"@) ==> car.gears@ == builtin.gears@
            && car.sources.gears@ == Origin::Global,
        input.shift_time_s is None && profiles.transmission@.contains_key(key) ==> car.shift_time_s == profiles.transmission@[key].shift_time_s
            && car.sources.shift_time_s@ == Origin::Profile("transmission."@ + key),
        input.shift_time_s is None && !profiles.transmission@.contains_key(key) && profiles.transmission@.contains_key("auto"@) ==> car.shift_time_s == profiles.transmission@["auto"@].shift_time_s
            && car.sources.shift_time_s@ == Origin::Global,
        input.shift_time_s is None && !profiles.transmission@.contains_key(key) && !profiles.transmission@.contains_key("auto"@) ==> car.shift_time_s == builtin.shift_time_s
            && car.sources.shift_time_s@ == Origin::Global,
{
}

/// Aerodynamic, chassis and tyre values: the user's if given; else the value
/// of the car's vehicle-class profile, reported under
/// "vehicle_class.<class>.<field>"; else the chassis default, reported as a
/// global default.  The class profile is the one the car's class names, if
/// the configuration has it.
pub proof fn lemma_chassis_from_class<N, RT: Fn(N) -> N, RL: Fn(N) -> N>(
    input: CarInput<N>,
    profiles: ProfileConfig<N>,
    builtin: BuiltinDefaults<N>,
    tq_from_hp: N,
    rpm_tq_for: RT,
    redline_for: RL,
    hp_text: Seq<char>,
    car: ResolvedCar<N>,
    class_name: Option<Seq<char>>,
    class: Option<VehicleClassProfile<N>>,
)
    requires
        resolves(input, profiles, builtin, tq_from_hp, rpm_tq_for, redline_for, hp_text, car),
        class_name == match input.vehicle_class {
            Some(c) => Some(c@),
            None => None,
        },
        class == match (input.vehicle_class, profiles.vehicle_class) {
            (Some(c), Some(t)) => if t@.contains_key(c@) {
                Some(t@[c@])
            } else {
                None
            },
            _ => None,
        },
    ensures
        input.cd matches Some(v) ==> car.cd == v && car.sources.cd@ == Origin::Provided,
        input.cd is None && class_name is Some && class is Some && class->0.cd is Some ==> car.cd == class->0.cd->0
            && car.sources.cd@ == Origin::Profile("vehicle_class."@ + class_name->0 + "."@ + "cd"@),
        input.cd is None && !(class is Some && class->0.cd is Some) ==> car.cd == profiles.chassis_defaults.cd
            && car.sources.cd@ == Origin::Global,
        input.frontal_area_sqft matches Some(v) ==> car.frontal_area_sqft == v && car.sources.frontal_area_sqft@ == Origin::Provided,
        input.frontal_area_sqft is None && class_name is Some && class is Some && class->0.frontal_area_sqft is Some ==> car.frontal_area_sqft == class->0.frontal_area_sqft->0
            && car.sources.frontal_area_sqft@ == Origin::Profile("vehicle_class."@ + class_name->0 + "."@ + "frontal_area_sqft"@),
        input.frontal_area_sqft is None && !(class is Some && class->0.frontal_area_sqft is Some) ==> car.frontal_area_sqft == profiles.chassis_defaults.frontal_area_sqft
            && car.sources.frontal_area_sqft@ == Origin::Global,
        input.cg_height_in matches Some(v) ==> car.cg_height_in == v && car.sources.cg_height_in@ == Origin::Provided,
        input.cg_height_in is None && class_name is Some && class is Some && class->0.cg_height_in is Some ==> car.cg_height_in == class->0.cg_height_in->0
            && car.sources.cg_height_in@ == Origin::Profile("vehicle_class."@ + class_name->0 + "."@ + "cg_height_in"@),
        input.cg_height_in is None && !(class is Some && class->0.cg_height_in is Some) ==> car.cg_height_in == profiles.chassis_defaults.cg_height_in
            && car.sources.cg_height_in@ == Origin::Global,
        input.wheelbase_in matches Some(v) ==> car.wheelbase_in == v && car.sources.wheelbase_in@ == Origin::Provided,
        input.wheelbase_in is None && class_name is Some && class is Some && class->0.wheelbase_in is Some ==> car.wheelbase_in == class->0.wheelbase_in->0
            && car.sources.wheelbase_in@ == Origin::Profile("vehicle_class."@ + class_name->0 + "."@ + "wheelbase_in"@),
        input.wheelbase_in is None && !(class is Some && class->0.wheelbase_in is Some) ==> car.wheelbase_in == profiles.chassis_defaults.wheelbase_in
            && car.sources.wheelbase_in@ == Origin::Global,
        input.tire_mu matches Some(v) ==> car.tire_mu == v && car.sources.tire_mu@ == Origin::Provided,
        input.tire_mu is None && class_name is Some && class is Some && class->0.tire_mu is Some ==> car.tire_mu == class->0.tire_mu->0
            && car.sources.tire_mu@ == Origin::Profile("vehicle_class."@ + class_name->0 + "."@ + "tire_mu"@),
        input.tire_mu is None && !(class is Some && class->0.tire_mu is Some) ==> car.tire_mu == profiles.chassis_defaults.tire_mu
            && car.sources.tire_mu@ == Origin::Global,
{
}

/// The drive-layout values: weight distribution is the user's, else the
/// layout's drivetrain profile's (reported under "drivetrain.<layout>"), else
/// the built-in value; drivetrain loss is the user's, else the vehicle
/// class's (reported under "vehicle_class.<class>"), else the layout's, else
/// the built-in value.
pub proof fn lemma_layout_values<N, RT: Fn(N) -> N, RL: Fn(N) -> N>(
    input: CarInput<N>,
    profiles: ProfileConfig<N>,
    builtin: BuiltinDefaults<N>,
    tq_from_hp: N,
    rpm_tq_for: RT,
    redline_for: RL,
    hp_text: Seq<char>,
    car: ResolvedCar<N>,
    layout: Seq<char>,
    class: Option<VehicleClassProfile<N>>,
)
    requires
        resolves(input, profiles, builtin, tq_from_hp, rpm_tq_for, redline_for, hp_text, car),
        layout == match input.driven_wheels {
            DriveLayout::FWD => "FWD"@,
            DriveLayout::RWD => "RWD"@,
            DriveLayout::AWD => "AWD"@,
        },
        class == match (input.vehicle_class, profiles.vehicle_class) {
            (Some(c), Some(t)) => if t@.contains_key(c@) {
                Some(t@[c@])
            } else {
                None
            },
            _ => None,
        },
    ensures
        input.name is None ==> car.name@ == hp_text + " HP "@ + layout + " car"@,
        input.weight_dist_rear_pct matches Some(v) ==> car.weight_dist_rear_pct == v
            && car.sources.weight_dist_rear_pct@ == Origin::Provided,
        input.weight_dist_rear_pct is None && profiles.drivetrain@.contains_key(layout) ==> car.weight_dist_rear_pct
            == profiles.drivetrain@[layout].weight_dist_rear_pct && car.sources.weight_dist_rear_pct@
            == Origin::Profile("drivetrain."@ + layout),
        input.weight_dist_rear_pct is None && !profiles.drivetrain@.contains_key(layout) ==> car.weight_dist_rear_pct
            == builtin.weight_dist_rear_pct && car.sources.weight_dist_rear_pct@ == Origin::Global,
        input.drivetrain_loss_pct matches Some(v) ==> car.drivetrain_loss_pct == v
            && car.sources.drivetrain_loss_pct@ == Origin::Provided,
        input.drivetrain_loss_pct is None && class is Some && class->0.drivetrain_loss_pct is Some
            ==> car.drivetrain_loss_pct == class->0.drivetrain_loss_pct->0 && car.sources.drivetrain_loss_pct@ == Origin::Profile(
            "vehicle_class."@ + input.vehicle_class->0@),
        input.drivetrain_loss_pct is None && !(class is Some && class->0.drivetrain_loss_pct is Some)
            && profiles.drivetrain@.contains_key(layout) ==> car.drivetrain_loss_pct
            == profiles.drivetrain@[layout].loss_pct && car.sources.drivetrain_loss_pct@ == Origin::Profile(
            "drivetrain."@ + layout),
        input.drivetrain_loss_pct is None && !(class is Some && class->0.drivetrain_loss_pct is Some)
            && !profiles.drivetrain@.contains_key(layout) ==> car.drivetrain_loss_pct == builtin.drivetrain_loss_pct
            && car.sources.drivetrain_loss_pct@ == Origin::Global,
{
}

/// The engine values: each is the user's if given; else torque is
/// `tq_from_hp`, peak-power rpm and launch rpm the engine defaults, peak-torque
/// rpm and redline what `rpm_tq_for` and `redline_for` give for the resolved
/// peak-power rpm, tyre diameter the chassis default, all reported as global
/// defaults.  The measured inputs and the name carry over.
pub proof fn lemma_engine_values<N, RT: Fn(N) -> N, RL: Fn(N) -> N>(
    input: CarInput<N>,
    profiles: ProfileConfig<N>,
    builtin: BuiltinDefaults<N>,
    tq_from_hp: N,
    rpm_tq_for: RT,
    redline_for: RL,
    hp_text: Seq<char>,
    car: ResolvedCar<N>,
)
    requires
        resolves(input, profiles, builtin, tq_from_hp, rpm_tq_for, redline_for, hp_text, car),
    ensures
        car.weight_lbs == input.weight_lbs && car.hp_peak == input.hp_peak && car.driven_wheels
            == input.driven_wheels,
        input.name matches Some(n) ==> car.name@ == n@,
        input.tq_peak matches Some(v) ==> car.tq_peak == v && car.sources.tq_peak@ == Origin::Provided,
        input.tq_peak is None ==> car.tq_peak == tq_from_hp && car.sources.tq_peak@ == Origin::Global,
        input.rpm_hp matches Some(v) ==> car.rpm_hp == v && car.sources.rpm_hp@ == Origin::Provided,
        input.rpm_hp is None ==> car.rpm_hp == profiles.engine_defaults.default_rpm_hp && car.sources.rpm_hp@
            == Origin::Global,
        input.rpm_tq matches Some(v) ==> car.rpm_tq == v && car.sources.rpm_tq@ == Origin::Provided,
        input.rpm_tq is None ==> rpm_tq_for.ensures((car.rpm_hp,), car.rpm_tq) && car.sources.rpm_tq@
            == Origin::Global,
        input.redline matches Some(v) ==> car.redline == v && car.sources.redline@ == Origin::Provided,
        input.redline is None ==> redline_for.ensures((car.rpm_hp,), car.redline) && car.sources.redline@
            == Origin::Global,
        input.tire_diameter_in matches Some(v) ==> car.tire_diameter_in == v && car.sources.tire_diameter_in@
            == Origin::Provided,
        input.tire_diameter_in is None ==> car.tire_diameter_in == profiles.chassis_defaults.tire_diameter_in
            && car.sources.tire_diameter_in@ == Origin::Global,
        input.launch_rpm matches Some(v) ==> car.launch_rpm == v && car.sources.launch_rpm@ == Origin::Provided,
        input.launch_rpm is None ==> car.launch_rpm == profiles.engine_defaults.default_launch_rpm
            && car.sources.launch_rpm@ == Origin::Global,
{
}

/// Whether the user gave the `i`-th estimable field (in the order of
/// `field_name`).
pub open spec fn given_at<N>(input: CarInput<N>, i: int) -> bool {
    if i == 0 {
        input.tq_peak is Some
    } else if i == 1 {
        input.rpm_hp is Some
    } else if i == 2 {
        input.rpm_tq is Some
    } else if i == 3 {
        input.redline is Some
    } else if i == 4 {
        input.gears is Some
    } else if i == 5 {
        input.final_drive is Some
    } else if i == 6 {
        input.shift_time_s is Some
    } else if i == 7 {
        input.cd is Some
    } else if i == 8 {
        input.frontal_area_sqft is Some
    } else if i == 9 {
        input.tire_diameter_in is Some
    } else if i == 10 {
        input.cg_height_in is Some
    } else if i == 11 {
        input.wheelbase_in is Some
    } else if i == 12 {
        input.weight_dist_rear_pct is Some
    } else if i == 13 {
        input.tire_mu is Some
    } else if i == 14 {
        input.drivetrain_loss_pct is Some
    } else {
        input.launch_rpm is Some
    }
}

/// A resolved value is tagged as provided exactly when the user gave it:
/// estimates are never passed off as user data, and user data is never
/// replaced by an estimate.
pub proof fn lemma_provided_iff_given<N, RT: Fn(N) -> N, RL: Fn(N) -> N>(
    input: CarInput<N>,
    profiles: ProfileConfig<N>,
    builtin: BuiltinDefaults<N>,
    tq_from_hp: N,
    rpm_tq_for: RT,
    redline_for: RL,
    hp_text: Seq<char>,
    car: ResolvedCar<N>,
)
    requires
        resolves(input, profiles, builtin, tq_from_hp, rpm_tq_for, redline_for, hp_text, car),
    ensures
        forall|i: int|
            0 <= i < num_fields() ==> ((#[trigger] car.sources.source_at(i))@ == Origin::Provided
                <==> given_at(input, i)),
{
}

/// A car whose every optional field the user gave resolves with full
/// confidence: its provided weight equals the total weight.
pub proof fn lemma_full_input_full_confidence<N, RT: Fn(N) -> N, RL: Fn(N) -> N>(
    input: CarInput<N>,
    profiles: ProfileConfig<N>,
    builtin: BuiltinDefaults<N>,
    tq_from_hp: N,
    rpm_tq_for: RT,
    redline_for: RL,
    hp_text: Seq<char>,
    car: ResolvedCar<N>,
)
    requires
        resolves(input, profiles, builtin, tq_from_hp, rpm_tq_for, redline_for, hp_text, car),
        forall|i: int| 0 <= i < num_fields() ==> #[trigger] given_at(input, i),
    ensures
        provided_weight(car.sources) == total_weight(),
{
    lemma_provided_iff_given(input, profiles, builtin, tq_from_hp, rpm_tq_for, redline_for, hp_text, car);
    assert forall|i: int| 0 <= i < num_fields() implies (#[trigger] car.sources.source_at(i))@
        == Origin::Provided by {
        assert(given_at(input, i));
    }
    lemma_full_confidence_iff_all_provided(car.sources);
}

} // verus!
