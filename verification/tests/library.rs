use sim_core::catalog::{car_name_of, car_names, text_less};
use sim_core::confidence::{confidence_weights, field_details};
use sim_core::config::{
    entry_to_target, presets_from_entries, ChassisDefaults, DrivetrainProfile, EngineDefaults,
    PhysicsConstants, ProfileConfig, ProfileTable, RacePresetEntry, SimulationDefaults,
    TransmissionProfile, VehicleClassProfile,
};
use sim_core::estimation::{resolve_car, BuiltinDefaults};
use sim_core::solver::{decide_race, run_comparison, select_races, Side, TimeGap};
use sim_core::text::decimal_string;
use sim_core::types::{CarInput, DriveLayout, FieldSources, RaceResult, RaceTarget, ResolvedCar, ValueSource};
use sim_core::validation::{validate_car_input, warn, ValidationLimits, ValidationWarning};

fn table<P>(entries: Vec<(&str, P)>) -> ProfileTable<P> {
    let mut t = ProfileTable::new();
    for (k, v) in entries {
        t.insert(k.to_string(), v);
    }
    t
}

fn profiles() -> ProfileConfig<f64> {
    ProfileConfig {
        simulation: SimulationDefaults {
            time_step_s: 0.005,
            max_time_s: 90.0,
            aero_wall_accel_threshold: 0.005,
            aero_wall_min_speed_ms: 30.0,
        },
        engine_defaults: EngineDefaults {
            idle_rpm: 1000.0,
            idle_torque_fraction: 0.5,
            overrev_torque_fraction: 0.8,
            default_rpm_hp: 6500.0,
            rpm_tq_offset_from_hp: 1500.0,
            min_rpm_tq: 2000.0,
            redline_offset_from_hp: 500.0,
            tq_from_hp_multiplier: 0.9,
            default_launch_rpm: 3000.0,
        },
        chassis_defaults: ChassisDefaults {
            cd: 0.32,
            frontal_area_sqft: 23.5,
            tire_diameter_in: 27.0,
            cg_height_in: 20.0,
            wheelbase_in: 110.0,
            tire_mu: 1.0,
        },
        physics_constants: PhysicsConstants {
            rolling_resistance_crr: 0.015,
            rotational_inertia_base: 0.04,
            rotational_inertia_gear_factor: 0.0025,
        },
        drivetrain: table(vec![
            ("FWD", DrivetrainProfile { loss_pct: 12.0, weight_dist_rear_pct: 40.0 }),
            ("AWD", DrivetrainProfile { loss_pct: 18.0, weight_dist_rear_pct: 50.0 }),
        ]),
        transmission: table(vec![
            (
                "auto",
                TransmissionProfile { gears: vec![4.17, 2.34, 1.52], final_drive: 3.42, shift_time_s: 0.15 },
            ),
            (
                "dual_clutch",
                TransmissionProfile { gears: vec![3.9, 2.3], final_drive: 3.44, shift_time_s: 0.05 },
            ),
        ]),
        vehicle_class: Some(table(vec![
            (
                "sports_car",
                VehicleClassProfile {
                    cd: Some(0.30),
                    frontal_area_sqft: None,
                    cg_height_in: Some(18.0),
                    wheelbase_in: None,
                    tire_mu: Some(1.1),
                    drivetrain_loss_pct: None,
                },
            ),
            (
                "ev",
                VehicleClassProfile {
                    cd: None,
                    frontal_area_sqft: None,
                    cg_height_in: None,
                    wheelbase_in: None,
                    tire_mu: None,
                    drivetrain_loss_pct: Some(5.0),
                },
            ),
        ])),
    }
}

fn builtin() -> BuiltinDefaults<f64> {
    BuiltinDefaults {
        gears: vec![4.17, 2.34, 1.52, 1.14, 0.87, 0.69],
        final_drive: 3.42,
        shift_time_s: 0.15,
        weight_dist_rear_pct: 50.0,
        drivetrain_loss_pct: 15.0,
    }
}

fn bare(weight_lbs: f64, hp_peak: f64, driven_wheels: DriveLayout) -> CarInput<f64> {
    CarInput {
        name: None,
        weight_lbs,
        hp_peak,
        driven_wheels,
        tq_peak: None,
        rpm_hp: None,
        rpm_tq: None,
        redline: None,
        transmission_type: None,
        gears: None,
        final_drive: None,
        shift_time_s: None,
        vehicle_class: None,
        cd: None,
        frontal_area_sqft: None,
        tire_diameter_in: None,
        cg_height_in: None,
        wheelbase_in: None,
        weight_dist_rear_pct: None,
        tire_mu: None,
        drivetrain_loss_pct: None,
        launch_rpm: None,
    }
}

fn resolve(input: &CarInput<f64>, p: &ProfileConfig<f64>) -> ResolvedCar<f64> {
    resolve_car(
        input,
        p,
        &builtin(),
        input.hp_peak * 0.9,
        |rpm_hp: f64| (rpm_hp - 1500.0).max(2000.0),
        |rpm_hp: f64| rpm_hp + 500.0,
        &format!("{:.0}", input.hp_peak),
    )
    .unwrap()
}

fn profile_name(s: &ValueSource) -> Option<String> {
    match s {
        ValueSource::ProfileDefault { profile_name } => Some(profile_name.clone()),
        _ => None,
    }
}

// ─── Profile tables ─────────────────────────────────────────────────

#[test]
fn profile_table_insert_replaces_and_get_finds() {
    let mut t: ProfileTable<u32> = ProfileTable::new();
    assert_eq!(t.len(), 0);
    assert!(t.get("a").is_none());
    t.insert("a".to_string(), 1);
    t.insert("b".to_string(), 2);
    t.insert("a".to_string(), 3);
    assert_eq!(t.len(), 2);
    assert_eq!(t.get("a"), Some(&3));
    assert_eq!(t.get("b"), Some(&2));
    assert!(!t.contains_key("c"));
}

// ─── Race presets ───────────────────────────────────────────────────

fn entry(name: &str, ft: Option<f64>, mph: Option<f64>) -> RacePresetEntry<f64> {
    RacePresetEntry { name: name.to_string(), start_mph: 0.0, target_distance_ft: ft, target_speed_mph: mph }
}

#[test]
fn race_entry_targets() {
    assert!(matches!(entry_to_target(&entry("d", Some(660.0), None)), Ok(RaceTarget::Distance { feet }) if feet == 660.0));
    assert!(matches!(entry_to_target(&entry("s", None, Some(150.0))), Ok(RaceTarget::Speed { mph }) if mph == 150.0));
}

#[test]
fn race_entry_with_both_targets_is_refused() {
    let r = presets_from_entries(&vec![entry("ok", Some(1.0), None), entry("X", Some(660.0), Some(150.0))]);
    assert_eq!(
        r.unwrap_err(),
        "Race 'X': specify either target_distance_ft or target_speed_mph, not both"
    );
}

#[test]
fn race_entry_without_target_is_refused() {
    let r = presets_from_entries(&vec![entry("Y", None, None), entry("Z", Some(1.0), Some(2.0))]);
    assert_eq!(r.unwrap_err(), "Race 'Y': must specify target_distance_ft or target_speed_mph");
}

#[test]
fn race_presets_keep_order_and_fields() {
    let races = presets_from_entries(&vec![entry("a", Some(660.0), None), entry("b", None, Some(150.0))]).unwrap();
    assert_eq!(races.len(), 2);
    assert_eq!(races[1].name, "b");
    assert_eq!(races[1].start_mph, 0.0);
    assert!(matches!(races[1].target, RaceTarget::Speed { mph } if mph == 150.0));
}

// ─── Car catalogue ──────────────────────────────────────────────────

#[test]
fn car_file_names_are_filtered_and_sorted() {
    let files: Vec<String> = ["zeta.toml", "notes.txt", ".toml", "alpha.toml", "Beta.toml", "a.b.toml", "toml", "x.TOML"]
        .iter()
        .map(|s| s.to_string())
        .collect();
    let names = car_names(&files);
    assert_eq!(names, vec!["Beta", "a.b", "alpha", "zeta"]);
}

#[test]
fn car_name_of_single_files() {
    assert_eq!(car_name_of("example_muscle_car.toml"), Some("example_muscle_car".to_string()));
    assert_eq!(car_name_of(".toml"), None);
    assert_eq!(car_name_of("car.toml.bak"), None);
    assert_eq!(car_name_of("..toml"), Some(".".to_string()));
}

#[test]
fn text_order_is_lexicographic() {
    assert!(text_less("abc", "abd"));
    assert!(text_less("ab", "abc"));
    assert!(!text_less("abc", "abc"));
    assert!(text_less("Z", "a"));
    assert!(!text_less("b", "abc"));
}

// ─── Text ───────────────────────────────────────────────────────────

#[test]
fn decimal_rendering() {
    assert_eq!(decimal_string(0), "0");
    assert_eq!(decimal_string(7), "7");
    assert_eq!(decimal_string(10), "10");
    assert_eq!(decimal_string(1234), "1234");
}

#[test]
fn layout_and_source_printing() {
    assert_eq!(DriveLayout::FWD.to_string(), "FWD");
    assert_eq!(DriveLayout::AWD.to_string(), "AWD");
    assert_eq!(ValueSource::Provided.to_string(), "provided");
    assert_eq!(ValueSource::GlobalDefault.to_string(), "global default");
    assert_eq!(
        ValueSource::DerivedFromProvided { description: "x".into() }.to_string(),
        "derived: x"
    );
    assert_eq!(
        ValueSource::ProfileDefault { profile_name: "drivetrain.AWD".into() }.to_string(),
        "profile: drivetrain.AWD"
    );
}

// ─── Estimation ─────────────────────────────────────────────────────

#[test]
fn minimal_car_sources_and_derivations() {
    let p = profiles();
    let car = resolve(&bare(3500.0, 400.0, DriveLayout::AWD), &p);
    assert_eq!(car.name, "400 HP AWD car");
    assert!((car.tq_peak - 360.0).abs() < 1e-9);
    assert!(matches!(car.sources.tq_peak, ValueSource::GlobalDefault));
    assert_eq!(car.rpm_hp, 6500.0);
    assert_eq!(car.rpm_tq, 5000.0);
    assert_eq!(car.redline, 7000.0);
    assert_eq!(car.gears, vec![4.17, 2.34, 1.52]);
    assert_eq!(profile_name(&car.sources.gears).as_deref(), Some("transmission.auto"));
    assert_eq!(car.drivetrain_loss_pct, 18.0);
    assert_eq!(profile_name(&car.sources.drivetrain_loss_pct).as_deref(), Some("drivetrain.AWD"));
    assert_eq!(car.weight_dist_rear_pct, 50.0);
    assert_eq!(car.cd, 0.32);
    assert!(matches!(car.sources.cd, ValueSource::GlobalDefault));
    assert_eq!(car.launch_rpm, 3000.0);
}

#[test]
fn derived_rpm_respects_floor() {
    let p = profiles();
    let mut input = bare(3000.0, 200.0, DriveLayout::FWD);
    input.rpm_hp = Some(3000.0);
    let car = resolve(&input, &p);
    assert_eq!(car.rpm_tq, 2000.0);
    assert_eq!(car.redline, 3500.0);
    assert!(matches!(car.sources.rpm_hp, ValueSource::Provided));
    assert!(matches!(car.sources.rpm_tq, ValueSource::GlobalDefault));
}

#[test]
fn unknown_transmission_falls_back_to_auto_as_global() {
    let p = profiles();
    let mut input = bare(3000.0, 200.0, DriveLayout::RWD);
    input.transmission_type = Some("sequential".into());
    let car = resolve(&input, &p);
    assert_eq!(car.gears, vec![4.17, 2.34, 1.52]);
    assert!(matches!(car.sources.gears, ValueSource::GlobalDefault));
    assert!(matches!(car.sources.final_drive, ValueSource::GlobalDefault));
    // No RWD drivetrain profile here: built-in values.
    assert_eq!(car.drivetrain_loss_pct, 15.0);
    assert_eq!(car.weight_dist_rear_pct, 50.0);
    assert!(matches!(car.sources.weight_dist_rear_pct, ValueSource::GlobalDefault));
}

#[test]
fn named_transmission_profile_is_used() {
    let p = profiles();
    let mut input = bare(3000.0, 200.0, DriveLayout::FWD);
    input.transmission_type = Some("dual_clutch".into());
    let car = resolve(&input, &p);
    assert_eq!(car.shift_time_s, 0.05);
    assert_eq!(profile_name(&car.sources.shift_time_s).as_deref(), Some("transmission.dual_clutch"));
    assert_eq!(car.weight_dist_rear_pct, 40.0);
}

#[test]
fn vehicle_class_labels_and_priority() {
    let p = profiles();
    let mut input = bare(3000.0, 300.0, DriveLayout::FWD);
    input.vehicle_class = Some("sports_car".into());
    input.tire_mu = Some(1.4);
    let car = resolve(&input, &p);
    assert_eq!(car.cd, 0.30);
    assert_eq!(profile_name(&car.sources.cd).as_deref(), Some("vehicle_class.sports_car.cd"));
    assert_eq!(car.tire_mu, 1.4, "the user's value beats the class's");
    assert!(matches!(car.sources.tire_mu, ValueSource::Provided));
    assert_eq!(car.frontal_area_sqft, 23.5, "class without a value: global default");
    assert_eq!(car.drivetrain_loss_pct, 12.0, "FWD drivetrain profile");

    let mut ev = bare(4000.0, 500.0, DriveLayout::AWD);
    ev.vehicle_class = Some("ev".into());
    let car = resolve(&ev, &p);
    assert_eq!(car.drivetrain_loss_pct, 5.0, "class beats drivetrain");
    assert_eq!(profile_name(&car.sources.drivetrain_loss_pct).as_deref(), Some("vehicle_class.ev"));

    let mut unknown = bare(4000.0, 500.0, DriveLayout::AWD);
    unknown.vehicle_class = Some("hovercraft".into());
    let car = resolve(&unknown, &p);
    assert_eq!(car.cd, 0.32);
    assert!(matches!(car.sources.cd, ValueSource::GlobalDefault));
}

// ─── Confidence ─────────────────────────────────────────────────────

fn all_sources(s: ValueSource) -> FieldSources {
    FieldSources {
        tq_peak: s.clone(),
        rpm_hp: s.clone(),
        rpm_tq: s.clone(),
        redline: s.clone(),
        gears: s.clone(),
        final_drive: s.clone(),
        shift_time_s: s.clone(),
        cd: s.clone(),
        frontal_area_sqft: s.clone(),
        tire_diameter_in: s.clone(),
        cg_height_in: s.clone(),
        wheelbase_in: s.clone(),
        weight_dist_rear_pct: s.clone(),
        tire_mu: s.clone(),
        drivetrain_loss_pct: s.clone(),
        launch_rpm: s,
    }
}

fn with_sources(s: FieldSources) -> ResolvedCar<f64> {
    let mut car = resolve(&bare(3000.0, 300.0, DriveLayout::RWD), &profiles());
    car.sources = s;
    car
}

#[test]
fn confidence_weight_values() {
    assert_eq!(confidence_weights(&with_sources(all_sources(ValueSource::Provided))), (117, 117));
    assert_eq!(confidence_weights(&with_sources(all_sources(ValueSource::GlobalDefault))), (25, 117));
    let mut s = all_sources(ValueSource::GlobalDefault);
    s.gears = ValueSource::Provided;
    assert_eq!(confidence_weights(&with_sources(s)), (35, 117));
    let mut s = all_sources(ValueSource::GlobalDefault);
    s.launch_rpm = ValueSource::Provided;
    s.tire_mu = ValueSource::Provided;
    assert_eq!(confidence_weights(&with_sources(s)), (34, 117));
}

#[test]
fn confidence_grows_with_each_provided_field() {
    let p = profiles();
    let base = resolve(&bare(3000.0, 300.0, DriveLayout::RWD), &p);
    let mut more = bare(3000.0, 300.0, DriveLayout::RWD);
    more.cd = Some(0.3);
    let more = resolve(&more, &p);
    assert!(confidence_weights(&more).0 > confidence_weights(&base).0);
}

#[test]
fn field_details_impacts_and_sources() {
    let mut s = all_sources(ValueSource::GlobalDefault);
    s.gears = ValueSource::Provided;
    let d = field_details(&with_sources(s));
    assert_eq!(d.len(), 16);
    assert_eq!(d[0].field, "tq_peak");
    assert_eq!(d[0].impact, "critical");
    assert_eq!(d[4].field, "gears");
    assert!(d[4].provided);
    assert_eq!(d[4].source, "provided");
    assert_eq!(d[14].impact, "high");
    assert_eq!(d[2].impact, "medium");
    assert_eq!(d[15].field, "launch_rpm");
    assert_eq!(d[15].impact, "low");
    assert_eq!(d[15].source, "global default");
    assert!(!d[15].provided);
}

#[test]
fn all_fields_order() {
    let s = all_sources(ValueSource::Provided);
    let names: Vec<&str> = s.all_fields().iter().map(|(n, _)| *n).collect();
    assert_eq!(names.len(), 16);
    assert_eq!(names[0], "tq_peak");
    assert_eq!(names[4], "gears");
    assert_eq!(names[15], "launch_rpm");
}

// ─── Validation ─────────────────────────────────────────────────────

fn limits() -> ValidationLimits<f64> {
    ValidationLimits {
        zero: 0.0,
        max_weight_lbs: 15_000.0,
        max_hp: 5_000.0,
        min_rpm_hp: 1000.0,
        max_rpm_hp: 15_000.0,
        min_rpm_tq: 500.0,
        max_rpm_tq: 12_000.0,
        min_redline: 2000.0,
        max_redline: 20_000.0,
        min_cd: 0.1,
        max_cd: 1.0,
        min_frontal_area_sqft: 10.0,
        max_frontal_area_sqft: 50.0,
        min_tire_diameter_in: 15.0,
        max_tire_diameter_in: 40.0,
        min_tire_mu: 0.3,
        max_tire_mu: 2.5,
        min_weight_dist_rear_pct: 20.0,
        max_weight_dist_rear_pct: 80.0,
        min_drivetrain_loss_pct: 0.0,
        max_drivetrain_loss_pct: 50.0,
    }
}

fn check(input: &CarInput<f64>) -> Vec<(String, String)> {
    validate_car_input(input, &limits(), |a: f64, b: f64| a < b, |a: f64, b: f64| a <= b)
        .into_iter()
        .map(|w: ValidationWarning| (w.field, w.message))
        .collect()
}

#[test]
fn every_warning_in_order() {
    let mut input = bare(20_000.0, 6_000.0, DriveLayout::RWD);
    input.tq_peak = Some(-1.0);
    input.rpm_hp = Some(500.0);
    input.rpm_tq = Some(13_000.0);
    input.redline = Some(400.0);
    input.gears = Some(vec![2.0, 0.0, 3.0]);
    input.final_drive = Some(0.0);
    input.cd = Some(1.5);
    input.frontal_area_sqft = Some(5.0);
    input.tire_diameter_in = Some(50.0);
    input.tire_mu = Some(0.1);
    input.weight_dist_rear_pct = Some(90.0);
    input.drivetrain_loss_pct = Some(-5.0);
    let w = check(&input);
    let expected: Vec<(&str, &str)> = vec![
        ("weight_lbs", "unusually high (> 15 000 lbs) — double-check value"),
        ("hp_peak", "unusually high (> 5 000 HP) — double-check value"),
        ("tq_peak", "must be positive"),
        ("rpm_hp", "expected between 1 000 and 15 000"),
        ("rpm_tq", "expected between 500 and 12 000"),
        ("redline", "expected between 2 000 and 20 000"),
        ("rpm_tq", "peak torque RPM should be lower than peak HP RPM"),
        ("redline", "redline should be above peak HP RPM"),
        ("gears", "gear 1 ratio must be positive"),
        ("gears", "ratios should be descending (highest first)"),
        ("final_drive", "must be positive"),
        ("cd", "expected between 0.10 and 1.00"),
        ("frontal_area_sqft", "expected between 10 and 50 sq ft"),
        ("tire_diameter_in", "expected between 15 and 40 inches"),
        ("tire_mu", "expected between 0.3 and 2.5"),
        ("weight_dist_rear_pct", "expected between 20% and 80%"),
        ("drivetrain_loss_pct", "expected between 0% and 50%"),
    ];
    let expected: Vec<(String, String)> =
        expected.into_iter().map(|(f, m)| (f.to_string(), m.to_string())).collect();
    assert_eq!(w, expected);
}

#[test]
fn nonpositive_mass_power_and_empty_gears() {
    let mut input = bare(0.0, -3.0, DriveLayout::FWD);
    input.gears = Some(vec![]);
    let w = check(&input);
    assert_eq!(
        w,
        vec![
            ("weight_lbs".to_string(), "must be positive".to_string()),
            ("hp_peak".to_string(), "must be positive".to_string()),
            ("gears".to_string(), "must have at least one gear".to_string()),
        ]
    );
}

#[test]
fn bounds_are_inclusive() {
    let mut input = bare(15_000.0, 5_000.0, DriveLayout::AWD);
    input.rpm_hp = Some(15_000.0);
    input.rpm_tq = Some(500.0);
    input.cd = Some(0.1);
    input.tire_mu = Some(2.5);
    input.drivetrain_loss_pct = Some(0.0);
    input.gears = Some(vec![3.0, 2.0, 1.0]);
    assert!(check(&input).is_empty());
}

#[test]
fn equal_adjacent_gears_warn_once() {
    let mut input = bare(3000.0, 300.0, DriveLayout::RWD);
    input.gears = Some(vec![3.0, 3.0, 4.0]);
    let w = check(&input);
    assert_eq!(w, vec![("gears".to_string(), "ratios should be descending (highest first)".to_string())]);
}

#[test]
fn warn_builds_a_warning() {
    let w = warn("cd", "bad");
    assert_eq!(w.field, "cd");
    assert_eq!(w.message, "bad");
}

// ─── Comparison ─────────────────────────────────────────────────────

fn gap(a: f64, b: f64) -> TimeGap<f64> {
    let d = a - b;
    if d.abs() < 0.001 {
        TimeGap::Even
    } else if d < 0.0 {
        TimeGap::AAhead { margin: d.abs() }
    } else {
        TimeGap::BAhead { margin: d.abs() }
    }
}

#[test]
fn race_decisions() {
    let (w, m) = decide_race("A", "B", true, true, Some(gap(10.0, 10.5)), 0.0);
    assert_eq!(w.as_deref(), Some("A"));
    assert!((m - 0.5).abs() < 1e-9);
    let (w, m) = decide_race("A", "B", true, true, Some(gap(10.0, 10.0005)), 0.0);
    assert_eq!(w, None);
    assert_eq!(m, 0.0);
    let (w, m) = decide_race("A", "B", false, true, None, 0.0);
    assert_eq!(w.as_deref(), Some("B"));
    assert_eq!(m, 0.0);
    let (w, _) = decide_race("A", "B", false, false, None, 0.0);
    assert_eq!(w, None);
}

#[test]
fn swapping_cars_swaps_winner() {
    let (w1, m1) = decide_race("A", "B", true, true, Some(gap(11.0, 10.0)), 0.0);
    let (w2, m2) = decide_race("B", "A", true, true, Some(gap(10.0, 11.0)), 0.0);
    assert_eq!(w1, w2);
    assert_eq!(m1, m2);
}

#[test]
fn comparison_with_a_dnf() {
    let p = profiles();
    let a = resolve(&bare(3000.0, 300.0, DriveLayout::RWD), &p);
    let mut bi = bare(3000.0, 100.0, DriveLayout::FWD);
    bi.name = Some("Slow".into());
    let b = resolve(&bi, &p);
    let races = presets_from_entries(&vec![entry("roll", None, Some(150.0))]).unwrap();
    let dnf = RaceResult { time_s: f64::INFINITY, final_speed_mph: 120.0, completed: false, dnf_reason: Some("Aero wall at 120.0 mph".into()) };
    let fin = RaceResult { time_s: 12.0, final_speed_mph: 150.0, completed: true, dnf_reason: None };
    let result = run_comparison(
        &a,
        &b,
        &races,
        |side: Side, _i: usize| if side == Side::A { fin.clone() } else { dnf.clone() },
        gap,
        |x: u32, y: u32| x as f64 / y as f64,
        0.0,
    );
    assert_eq!(result.races.len(), 1);
    assert_eq!(result.races[0].race_name, "roll");
    assert_eq!(result.races[0].winner.as_deref(), Some("300 HP RWD car"));
    assert_eq!(result.races[0].margin_s, 0.0);
    assert!(!result.races[0].result_b.completed);
    assert_eq!(result.car_b.name, "Slow");
    assert!((result.confidence_a - 25.0 / 117.0).abs() < 1e-12);
    assert_eq!(result.details_b.len(), 16);
}

#[test]
fn race_selection_by_name() {
    let races = presets_from_entries(&vec![
        entry("1/8 Mile Dig", Some(660.0), None),
        entry("1/4 Mile Dig", Some(1320.0), None),
        entry("60-150 mph Roll", None, Some(150.0)),
    ])
    .unwrap();
    let all = select_races(&races, &vec![]);
    assert_eq!(all.len(), 3);
    let some = select_races(&races, &vec!["60-150 mph Roll".to_string(), "1/8 Mile Dig".to_string(), "nope".to_string()]);
    let names: Vec<&str> = some.iter().map(|r| r.name.as_str()).collect();
    assert_eq!(names, vec!["1/8 Mile Dig", "60-150 mph Roll"]);
    assert!(select_races(&races, &vec!["nope".to_string()]).is_empty());
}

#[test]
fn provided_tags_match_given_fields() {
    let p = profiles();
    let mut input = bare(3000.0, 300.0, DriveLayout::RWD);
    input.gears = Some(vec![3.0, 2.0]);
    input.launch_rpm = Some(4000.0);
    let car = resolve(&input, &p);
    let provided: Vec<&str> = car
        .sources
        .all_fields()
        .into_iter()
        .filter(|(_, s)| matches!(s, ValueSource::Provided))
        .map(|(n, _)| n)
        .collect();
    assert_eq!(provided, vec!["gears", "launch_rpm"]);
}
