use sim_core::confidence::field_details;
use sim_core::config::{
    presets_from_entries, ChassisDefaults, DrivetrainProfile, EngineDefaults, PhysicsConstants,
    ProfileConfig, ProfileTable, RacePresetEntry, SimulationDefaults, TransmissionProfile,
    VehicleClassProfile,
};
use sim_core::estimation::{resolve_car, BuiltinDefaults};
use sim_core::solver::{run_comparison, Side, TimeGap};
use sim_core::types::{CarInput, DriveLayout, RaceResult, ResolvedCar, ValueSource};
use sim_core::validation::{validate_car_input, ValidationLimits};

// ─── Fixtures ───────────────────────────────────────────────────────
//
// The profile, race and car values of the shipped configuration.

fn table<P>(entries: Vec<(&str, P)>) -> ProfileTable<P> {
    let mut t = ProfileTable::new();
    for (k, v) in entries {
        t.insert(k.to_string(), v);
    }
    t
}

fn class(cd: Option<f64>, fa: Option<f64>, cg: Option<f64>, wb: Option<f64>, mu: Option<f64>, dl: Option<f64>) -> VehicleClassProfile<f64> {
    VehicleClassProfile {
        cd,
        frontal_area_sqft: fa,
        cg_height_in: cg,
        wheelbase_in: wb,
        tire_mu: mu,
        drivetrain_loss_pct: dl,
    }
}

fn load_test_profiles() -> ProfileConfig<f64> {
    ProfileConfig {
        simulation: SimulationDefaults {
            time_step_s: 0.005,
            max_time_s: 90.0,
            aero_wall_accel_threshold: 0.005,
            aero_wall_min_speed_ms: 30.0,
        },
        engine_defaults: EngineDefaults {
            idle_rpm: 1000.0,
            idle_torque_fraction: 0.5,
            overrev_torque_fraction: 0.8,
            default_rpm_hp: 6500.0,
            rpm_tq_offset_from_hp: 1500.0,
            min_rpm_tq: 2000.0,
            redline_offset_from_hp: 500.0,
            tq_from_hp_multiplier: 0.9,
            default_launch_rpm: 3000.0,
        },
        chassis_defaults: ChassisDefaults {
            cd: 0.32,
            frontal_area_sqft: 23.5,
            tire_diameter_in: 27.0,
            cg_height_in: 20.0,
            wheelbase_in: 110.0,
            tire_mu: 1.0,
        },
        physics_constants: PhysicsConstants {
            rolling_resistance_crr: 0.015,
            rotational_inertia_base: 0.04,
            rotational_inertia_gear_factor: 0.0025,
        },
        drivetrain: table(vec![
            ("FWD", DrivetrainProfile { loss_pct: 12.0, weight_dist_rear_pct: 40.0 }),
            ("RWD", DrivetrainProfile { loss_pct: 15.0, weight_dist_rear_pct: 50.0 }),
            ("AWD", DrivetrainProfile { loss_pct: 18.0, weight_dist_rear_pct: 50.0 }),
        ]),
        transmission: table(vec![
            (
                "auto",
                TransmissionProfile {
                    gears: vec![4.17, 2.34, 1.52, 1.14, 0.87, 0.69],
                    final_drive: 3.42,
                    shift_time_s: 0.15,
                },
            ),
            (
                "manual",
                TransmissionProfile {
                    gears: vec![3.36, 2.07, 1.43, 1.0, 0.84, 0.56],
                    final_drive: 3.73,
                    shift_time_s: 0.3,
                },
            ),
            (
                "dual_clutch",
                TransmissionProfile {
                    gears: vec![3.91, 2.29, 1.58, 1.19, 0.97, 0.83, 0.67],
                    final_drive: 3.44,
                    shift_time_s: 0.05,
                },
            ),
        ]),
        vehicle_class: Some(table(vec![
            ("sports_car", class(Some(0.30), Some(21.0), Some(18.0), Some(100.0), Some(1.1), None)),
            ("muscle_car", class(Some(0.36), Some(24.0), Some(20.0), Some(107.0), None, None)),
            ("suv", class(Some(0.42), Some(30.0), Some(28.0), Some(115.0), Some(0.9), None)),
            ("ev", class(Some(0.25), None, None, None, None, Some(5.0))),
        ])),
    }
}

fn builtin() -> BuiltinDefaults<f64> {
    BuiltinDefaults {
        gears: vec![4.17, 2.34, 1.52, 1.14, 0.87, 0.69],
        final_drive: 3.42,
        shift_time_s: 0.15,
        weight_dist_rear_pct: 50.0,
        drivetrain_loss_pct: 15.0,
    }
}

fn resolve(input: &CarInput<f64>, profiles: &ProfileConfig<f64>) -> Result<ResolvedCar<f64>, String> {
    let eng = &profiles.engine_defaults;
    let rpm_tq_offset = eng.rpm_tq_offset_from_hp;
    let min_rpm_tq = eng.min_rpm_tq;
    let redline_offset = eng.redline_offset_from_hp;
    resolve_car(
        input,
        profiles,
        &builtin(),
        input.hp_peak * eng.tq_from_hp_multiplier,
        move |rpm_hp: f64| (rpm_hp - rpm_tq_offset).max(min_rpm_tq),
        move |rpm_hp: f64| rpm_hp + redline_offset,
        &format!("{:.0}", input.hp_peak),
    )
}

fn empty_input(name: Option<&str>, weight_lbs: f64, hp_peak: f64, driven_wheels: DriveLayout) -> CarInput<f64> {
    CarInput {
        name: name.map(|n| n.to_string()),
        weight_lbs,
        hp_peak,
        driven_wheels,
        tq_peak: None,
        rpm_hp: None,
        rpm_tq: None,
        redline: None,
        transmission_type: None,
        gears: None,
        final_drive: None,
        shift_time_s: None,
        vehicle_class: None,
        cd: None,
        frontal_area_sqft: None,
        tire_diameter_in: None,
        cg_height_in: None,
        wheelbase_in: None,
        weight_dist_rear_pct: None,
        tire_mu: None,
        drivetrain_loss_pct: None,
        launch_rpm: None,
    }
}

fn muscle_car() -> CarInput<f64> {
    CarInput {
        name: Some("Precision Spec V8 Muscle Car".to_string()),
        weight_lbs: 3950.0,
        hp_peak: 480.0,
        driven_wheels: DriveLayout::RWD,
        tq_peak: Some(420.0),
        rpm_hp: Some(7000.0),
        rpm_tq: Some(4600.0),
        redline: Some(7400.0),
        transmission_type: Some("manual".to_string()),
        gears: Some(vec![3.14, 2.32, 1.51, 1.14, 0.87, 0.66]),
        final_drive: Some(3.55),
        shift_time_s: Some(0.15),
        vehicle_class: Some("muscle_car".to_string()),
        cd: Some(0.35),
        frontal_area_sqft: Some(24.5),
        tire_diameter_in: Some(27.5),
        cg_height_in: Some(20.0),
        wheelbase_in: Some(107.0),
        weight_dist_rear_pct: Some(52.0),
        tire_mu: Some(1.1),
        drivetrain_loss_pct: Some(15.0),
        launch_rpm: Some(3500.0),
    }
}

fn awd_sedan() -> CarInput<f64> {
    empty_input(Some("Mystery AWD Turbo Sedan (Missing Data)"), 3500.0, 400.0, DriveLayout::AWD)
}

fn standard_limits() -> ValidationLimits<f64> {
    ValidationLimits {
        zero: 0.0,
        max_weight_lbs: 15_000.0,
        max_hp: 5_000.0,
        min_rpm_hp: 1000.0,
        max_rpm_hp: 15_000.0,
        min_rpm_tq: 500.0,
        max_rpm_tq: 12_000.0,
        min_redline: 2000.0,
        max_redline: 20_000.0,
        min_cd: 0.1,
        max_cd: 1.0,
        min_frontal_area_sqft: 10.0,
        max_frontal_area_sqft: 50.0,
        min_tire_diameter_in: 15.0,
        max_tire_diameter_in: 40.0,
        min_tire_mu: 0.3,
        max_tire_mu: 2.5,
        min_weight_dist_rear_pct: 20.0,
        max_weight_dist_rear_pct: 80.0,
        min_drivetrain_loss_pct: 0.0,
        max_drivetrain_loss_pct: 50.0,
    }
}

fn validate(input: &CarInput<f64>) -> Vec<sim_core::validation::ValidationWarning> {
    validate_car_input(input, &standard_limits(), |a: f64, b: f64| a < b, |a: f64, b: f64| a <= b)
}

fn car_confidence(car: &ResolvedCar<f64>) -> f64 {
    sim_core::confidence::car_confidence(car, |provided: u32, total: u32| provided as f64 / total as f64)
}

// ─── Config Loading ─────────────────────────────────────────────────

#[test]
fn profiles_load_successfully() {
    let p = load_test_profiles();
    assert!(p.simulation.time_step_s > 0.0);
    assert!(p.drivetrain.contains_key("RWD"));
    assert!(p.drivetrain.contains_key("FWD"));
    assert!(p.drivetrain.contains_key("AWD"));
    assert!(p.transmission.contains_key("auto"));
    assert!(p.transmission.contains_key("manual"));
}

fn standard_race_entries() -> Vec<RacePresetEntry<f64>> {
    let dig = |name: &str, ft: f64| RacePresetEntry {
        name: name.to_string(),
        start_mph: 0.0,
        target_distance_ft: Some(ft),
        target_speed_mph: None,
    };
    let roll = |name: &str, from: f64, to: f64| RacePresetEntry {
        name: name.to_string(),
        start_mph: from,
        target_distance_ft: None,
        target_speed_mph: Some(to),
    };
    vec![
        dig("1/8 Mile Dig", 660.0),
        dig("1/4 Mile Dig", 1320.0),
        dig("1 Mile Dig", 5280.0),
        roll("40-150 mph Roll", 40.0, 150.0),
        roll("60-150 mph Roll", 60.0, 150.0),
    ]
}

#[test]
fn race_presets_load_all_five() {
    let races = presets_from_entries(&standard_race_entries()).unwrap();
    assert_eq!(races.len(), 5);
    assert_eq!(races[0].name, "1/8 Mile Dig");
}

// ─── Estimation / Resolution ────────────────────────────────────────

#[test]
fn resolve_full_car_uses_provided_values() {
    let profiles = load_test_profiles();
    let input = muscle_car();
    let resolved = resolve(&input, &profiles).unwrap();

    assert_eq!(resolved.tq_peak, 420.0);
    assert_eq!(resolved.gears.len(), 6);
    assert_eq!(resolved.cd, 0.35);
    assert!(matches!(resolved.sources.tq_peak, ValueSource::Provided));
    assert!(matches!(resolved.sources.gears, ValueSource::Provided));
    assert!(matches!(resolved.sources.cd, ValueSource::Provided));
}

#[test]
fn resolve_minimal_car_fills_defaults() {
    let profiles = load_test_profiles();
    let input = awd_sedan();
    let resolved = resolve(&input, &profiles).unwrap();

    assert!(resolved.tq_peak > 0.0, "torque should be estimated");
    assert!(!resolved.gears.is_empty(), "gears should be filled in");
    assert!(resolved.final_drive > 0.0);
    assert!(resolved.cd > 0.0);

    assert!(
        !matches!(resolved.sources.tq_peak, ValueSource::Provided),
        "tq_peak should NOT be Provided for minimal car"
    );
    assert!(
        !matches!(resolved.sources.gears, ValueSource::Provided),
        "gears should NOT be Provided for minimal car"
    );

    assert_eq!(resolved.drivetrain_loss_pct, 18.0, "AWD = 18% loss from profile");
}

#[test]
fn resolve_respects_vehicle_class_profile() {
    let profiles = load_test_profiles();
    let mut input = empty_input(Some("Sports test"), 3200.0, 350.0, DriveLayout::RWD);
    input.vehicle_class = Some("sports_car".into());
    let resolved = resolve(&input, &profiles).unwrap();
    assert!((resolved.cd - 0.30).abs() < 0.001, "should pick sports_car cd=0.30");
    assert!((resolved.tire_mu - 1.1).abs() < 0.001, "should pick sports_car tire_mu=1.1");
}

// ─── Comparison ─────────────────────────────────────────────────────

fn finished(time_s: f64, final_speed_mph: f64) -> RaceResult<f64> {
    RaceResult { time_s, final_speed_mph, completed: true, dnf_reason: None }
}

#[test]
fn comparison_produces_winner() {
    let profiles = load_test_profiles();
    let races = presets_from_entries(&standard_race_entries()).unwrap();

    let car_a = resolve(&muscle_car(), &profiles).unwrap();
    let car_b = resolve(&awd_sedan(), &profiles).unwrap();

    // Stand-in race outcomes: car A is a little quicker everywhere.
    let times_a = [7.1, 11.2, 26.5, 14.0, 12.5];
    let times_b = [7.3, 11.6, 27.9, 16.2, 14.8];
    let result = run_comparison(
        &car_a,
        &car_b,
        &races,
        |side: Side, i: usize| match side {
            Side::A => finished(times_a[i], 100.0),
            Side::B => finished(times_b[i], 95.0),
        },
        |ta: f64, tb: f64| {
            let diff = ta - tb;
            if diff.abs() < 0.001 {
                TimeGap::Even
            } else if diff < 0.0 {
                TimeGap::AAhead { margin: diff.abs() }
            } else {
                TimeGap::BAhead { margin: diff.abs() }
            }
        },
        |p: u32, t: u32| p as f64 / t as f64,
        0.0,
    );

    assert_eq!(result.races.len(), 5);
    for race in &result.races {
        if race.result_a.completed && race.result_b.completed {
            assert!(race.winner.is_some(), "completed race should have a winner");
        }
    }
    assert!(result.confidence_a > result.confidence_b,
        "fully-specified car should have higher confidence than minimal car");
}

// ─── Confidence ─────────────────────────────────────────────────────

#[test]
fn full_car_high_confidence() {
    let profiles = load_test_profiles();
    let resolved = resolve(&muscle_car(), &profiles).unwrap();
    let score = car_confidence(&resolved);
    assert!(
        score > 0.85,
        "fully-specified car confidence {score:.2} should be > 0.85"
    );
}

#[test]
fn minimal_car_lower_confidence() {
    let profiles = load_test_profiles();
    let resolved = resolve(&awd_sedan(), &profiles).unwrap();
    let score = car_confidence(&resolved);
    assert!(
        score < 0.5,
        "minimal car confidence {score:.2} should be < 0.5"
    );
}

#[test]
fn field_details_lists_all_fields() {
    let profiles = load_test_profiles();
    let resolved = resolve(&muscle_car(), &profiles).unwrap();
    let details = field_details(&resolved);
    assert!(!details.is_empty());
    assert!(details.iter().all(|d| !d.field.is_empty()));
}

// ─── Validation ─────────────────────────────────────────────────────

#[test]
fn valid_car_produces_no_warnings() {
    let input = muscle_car();
    let warnings = validate(&input);
    assert!(
        warnings.is_empty(),
        "well-formed car should produce no warnings, got: {:?}",
        warnings.iter().map(|w| &w.message).collect::<Vec<_>>()
    );
}

#[test]
fn bad_gear_order_warns() {
    let mut input = empty_input(None, 3000.0, 300.0, DriveLayout::RWD);
    input.gears = Some(vec![1.0, 2.0, 3.0]);
    let warnings = validate(&input);
    assert!(
        warnings.iter().any(|w| w.field == "gears"),
        "ascending gear ratios should trigger a warning"
    );
}

