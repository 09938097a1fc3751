use vstd::prelude::*;
use vstd::string::*;

verus! {

/// Which wheels the engine drives.
#[derive(Debug, Clone, Copy, PartialEq, Eq, Hash, Structural)]
#[allow(non_camel_case_types, clippy::upper_case_acronyms)]
pub enum DriveLayout {
    FWD,
    RWD,
    AWD,
}

/// The printed name of a drive layout.
pub open spec fn layout_label(layout: DriveLayout) -> Seq<char> {
    match layout {
        DriveLayout::FWD => "FWD"@,
        DriveLayout::RWD => "RWD"@,
        DriveLayout::AWD => "AWD"@,
    }
}

impl DriveLayout {
    /// The layout's name, as it is written in configuration files.
    pub fn to_string(&self) -> (s: String)
        ensures
            s@ == layout_label(*self),
    {
        match self {
            DriveLayout::FWD => String::from_str("FWD"),
            DriveLayout::RWD => String::from_str("RWD"),
            DriveLayout::AWD => String::from_str("AWD"),
        }
    }
}

/// Where a resolved value came from.
#[derive(Debug, Clone, PartialEq)]
pub enum ValueSource {
    Provided,
    DerivedFromProvided { description: String },
    ProfileDefault { profile_name: String },
    GlobalDefault,
}

/// The mathematical content of a `ValueSource`.
pub ghost enum Origin {
    Provided,
    Derived(Seq<char>),
    Profile(Seq<char>),
    Global,
}

impl View for ValueSource {
    type V = Origin;

    open spec fn view(&self) -> Origin {
        match self {
            ValueSource::Provided => Origin::Provided,
            ValueSource::DerivedFromProvided { description } => Origin::Derived(description@),
            ValueSource::ProfileDefault { profile_name } => Origin::Profile(profile_name@),
            ValueSource::GlobalDefault => Origin::Global,
        }
    }
}

/// The printed form of a value source.
pub open spec fn source_label(source: ValueSource) -> Seq<char> {
    match source {
        ValueSource::Provided => "provided"@,
        ValueSource::DerivedFromProvided { description } => "derived: "@ + description@,
        ValueSource::ProfileDefault { profile_name } => "profile: "@ + profile_name@,
        ValueSource::GlobalDefault => "global default"@,
    }
}

impl ValueSource {
    /// Human-readable description of the origin ("provided",
    /// "derived: ...", "profile: ...", "global default").
    pub fn to_string(&self) -> (s: String)
        ensures
            s@ == source_label(*self),
    {
        match self {
            ValueSource::Provided => String::from_str("provided"),
            ValueSource::DerivedFromProvided { description } => String::from_str(
                "derived: ",
            ).concat(description.as_str()),
            ValueSource::ProfileDefault { profile_name } => String::from_str("profile: ").concat(
                profile_name.as_str(),
            ),
            ValueSource::GlobalDefault => String::from_str("global default"),
        }
    }

    /// A copy of this source.
    pub fn duplicate(&self) -> (r: ValueSource)
        ensures
            r@ == self@,
    {
        match self {
            ValueSource::Provided => ValueSource::Provided,
            ValueSource::DerivedFromProvided { description } => ValueSource::DerivedFromProvided {
                description: description.clone(),
            },
            ValueSource::ProfileDefault { profile_name } => ValueSource::ProfileDefault {
                profile_name: profile_name.clone(),
            },
            ValueSource::GlobalDefault => ValueSource::GlobalDefault,
        }
    }

    /// Whether the value was given explicitly by the user.
    pub fn is_provided(&self) -> (b: bool)
        ensures
            b == (*self is Provided),
    {
        match self {
            ValueSource::Provided => true,
            _ => false,
        }
    }
}

/// Tracks where each resolved value came from.
#[derive(Debug, Clone)]
pub struct FieldSources {
    pub tq_peak: ValueSource,
    pub rpm_hp: ValueSource,
    pub rpm_tq: ValueSource,
    pub redline: ValueSource,
    pub gears: ValueSource,
    pub final_drive: ValueSource,
    pub shift_time_s: ValueSource,
    pub cd: ValueSource,
    pub frontal_area_sqft: ValueSource,
    pub tire_diameter_in: ValueSource,
    pub cg_height_in: ValueSource,
    pub wheelbase_in: ValueSource,
    pub weight_dist_rear_pct: ValueSource,
    pub tire_mu: ValueSource,
    pub drivetrain_loss_pct: ValueSource,
    pub launch_rpm: ValueSource,
}

/// Number of optional, estimable fields of a car.
pub open spec fn num_fields() -> nat {
    16
}

/// Name of the `i`-th estimable field, in the fixed reporting order.
pub open spec fn field_name(i: int) -> Seq<char> {
    if i == 0 {
        "tq_peak"@
    } else if i == 1 {
        "rpm_hp"@
    } else if i == 2 {
        "rpm_tq"@
    } else if i == 3 {
        "redline"@
    } else if i == 4 {
        "gears"@
    } else if i == 5 {
        "final_drive"@
    } else if i == 6 {
        "shift_time_s"@
    } else if i == 7 {
        "cd"@
    } else if i == 8 {
        "frontal_area_sqft"@
    } else if i == 9 {
        "tire_diameter_in"@
    } else if i == 10 {
        "cg_height_in"@
    } else if i == 11 {
        "wheelbase_in"@
    } else if i == 12 {
        "weight_dist_rear_pct"@
    } else if i == 13 {
        "tire_mu"@
    } else if i == 14 {
        "drivetrain_loss_pct"@
    } else {
        "launch_rpm"@
    }
}

impl FieldSources {
    /// Source of the `i`-th field, in the order of `field_name`.
    pub open spec fn source_at(self, i: int) -> ValueSource {
        if i == 0 {
            self.tq_peak
        } else if i == 1 {
            self.rpm_hp
        } else if i == 2 {
            self.rpm_tq
        } else if i == 3 {
            self.redline
        } else if i == 4 {
            self.gears
        } else if i == 5 {
            self.final_drive
        } else if i == 6 {
            self.shift_time_s
        } else if i == 7 {
            self.cd
        } else if i == 8 {
            self.frontal_area_sqft
        } else if i == 9 {
            self.tire_diameter_in
        } else if i == 10 {
            self.cg_height_in
        } else if i == 11 {
            self.wheelbase_in
        } else if i == 12 {
            self.weight_dist_rear_pct
        } else if i == 13 {
            self.tire_mu
        } else if i == 14 {
            self.drivetrain_loss_pct
        } else {
            self.launch_rpm
        }
    }

    /// Both record the same origin for every field.
    pub open spec fn same_origins(self, other: FieldSources) -> bool {
        forall|i: int| 0 <= i < num_fields() ==> (#[trigger] self.source_at(i))@ == other.source_at(i)@
    }

    /// A copy of these sources.
    pub fn duplicate(&self) -> (r: FieldSources)
        ensures
            r.same_origins(*self),
    {
        FieldSources {
            tq_peak: self.tq_peak.duplicate(),
            rpm_hp: self.rpm_hp.duplicate(),
            rpm_tq: self.rpm_tq.duplicate(),
            redline: self.redline.duplicate(),
            gears: self.gears.duplicate(),
            final_drive: self.final_drive.duplicate(),
            shift_time_s: self.shift_time_s.duplicate(),
            cd: self.cd.duplicate(),
            frontal_area_sqft: self.frontal_area_sqft.duplicate(),
            tire_diameter_in: self.tire_diameter_in.duplicate(),
            cg_height_in: self.cg_height_in.duplicate(),
            wheelbase_in: self.wheelbase_in.duplicate(),
            weight_dist_rear_pct: self.weight_dist_rear_pct.duplicate(),
            tire_mu: self.tire_mu.duplicate(),
            drivetrain_loss_pct: self.drivetrain_loss_pct.duplicate(),
            launch_rpm: self.launch_rpm.duplicate(),
        }
    }

    /// Every estimable field with its name, in the fixed reporting order.
    pub fn all_fields(&self) -> (res: Vec<(&str, &ValueSource)>)
        ensures
            res@.len() == num_fields(),
            forall|i: int|
                0 <= i < num_fields() ==> #[trigger] res@[i].0@ == field_name(i) && *res@[i].1
                    == self.source_at(i),
    {
        let mut v: Vec<(&str, &ValueSource)> = Vec::new();
        v.push(("tq_peak", &self.tq_peak));
        v.push(("rpm_hp", &self.rpm_hp));
        v.push(("rpm_tq", &self.rpm_tq));
        v.push(("redline", &self.redline));
        v.push(("gears", &self.gears));
        v.push(("final_drive", &self.final_drive));
        v.push(("shift_time_s", &self.shift_time_s));
        v.push(("cd", &self.cd));
        v.push(("frontal_area_sqft", &self.frontal_area_sqft));
        v.push(("tire_diameter_in", &self.tire_diameter_in));
        v.push(("cg_height_in", &self.cg_height_in));
        v.push(("wheelbase_in", &self.wheelbase_in));
        v.push(("weight_dist_rear_pct", &self.weight_dist_rear_pct));
        v.push(("tire_mu", &self.tire_mu));
        v.push(("drivetrain_loss_pct", &self.drivetrain_loss_pct));
        v.push(("launch_rpm", &self.launch_rpm));
        v
    }
}

/// User-facing car configuration.  Only `weight_lbs`, `hp_peak` and
/// `driven_wheels` are required; every other field is optional and is filled
/// by the estimation pipeline when missing.
#[derive(Debug, Clone)]
pub struct CarInput<N> {
    pub name: Option<String>,
    pub weight_lbs: N,
    pub hp_peak: N,
    pub driven_wheels: DriveLayout,
    pub tq_peak: Option<N>,
    pub rpm_hp: Option<N>,
    pub rpm_tq: Option<N>,
    pub redline: Option<N>,
    pub transmission_type: Option<String>,
    pub gears: Option<Vec<N>>,
    pub final_drive: Option<N>,
    pub shift_time_s: Option<N>,
    pub vehicle_class: Option<String>,
    pub cd: Option<N>,
    pub frontal_area_sqft: Option<N>,
    pub tire_diameter_in: Option<N>,
    pub cg_height_in: Option<N>,
    pub wheelbase_in: Option<N>,
    pub weight_dist_rear_pct: Option<N>,
    pub tire_mu: Option<N>,
    pub drivetrain_loss_pct: Option<N>,
    pub launch_rpm: Option<N>,
}

/// A fully resolved car: every field is populated and tagged with its
/// origin, so that a user can see which values are real and which estimated.
#[derive(Debug, Clone)]
pub struct ResolvedCar<N> {
    pub name: String,
    pub weight_lbs: N,
    pub hp_peak: N,
    pub driven_wheels: DriveLayout,
    pub tq_peak: N,
    pub rpm_hp: N,
    pub rpm_tq: N,
    pub redline: N,
    pub gears: Vec<N>,
    pub final_drive: N,
    pub cd: N,
    pub frontal_area_sqft: N,
    pub tire_diameter_in: N,
    pub shift_time_s: N,
    pub launch_rpm: N,
    pub cg_height_in: N,
    pub wheelbase_in: N,
    pub weight_dist_rear_pct: N,
    pub tire_mu: N,
    pub drivetrain_loss_pct: N,
    pub sources: FieldSources,
}

/// A copy of a list of scalars.
pub(crate) fn copy_values<N: Copy>(v: &Vec<N>) -> (res: Vec<N>)
    ensures
        res@ == v@,
{
    let mut out: Vec<N> = Vec::new();
    let mut i: usize = 0;
    while i < v.len()
        invariant
            0 <= i <= v@.len(),
            out@ == v@.subrange(0, i as int),
        decreases v.len() - i,
    {
        out.push(v[i]);
        i += 1;
        assert(out@ =~= v@.subrange(0, i as int));
    }
    assert(out@ =~= v@);
    out
}

impl<N: Copy> ResolvedCar<N> {
    /// Both describe the same car: same values, same name, same origins.
    pub open spec fn same_as(self, other: ResolvedCar<N>) -> bool {
        &&& self.name@ == other.name@
        &&& self.weight_lbs == other.weight_lbs
        &&& self.hp_peak == other.hp_peak
        &&& self.driven_wheels == other.driven_wheels
        &&& self.tq_peak == other.tq_peak
        &&& self.rpm_hp == other.rpm_hp
        &&& self.rpm_tq == other.rpm_tq
        &&& self.redline == other.redline
        &&& self.gears@ == other.gears@
        &&& self.final_drive == other.final_drive
        &&& self.cd == other.cd
        &&& self.frontal_area_sqft == other.frontal_area_sqft
        &&& self.tire_diameter_in == other.tire_diameter_in
        &&& self.shift_time_s == other.shift_time_s
        &&& self.launch_rpm == other.launch_rpm
        &&& self.cg_height_in == other.cg_height_in
        &&& self.wheelbase_in == other.wheelbase_in
        &&& self.weight_dist_rear_pct == other.weight_dist_rear_pct
        &&& self.tire_mu == other.tire_mu
        &&& self.drivetrain_loss_pct == other.drivetrain_loss_pct
        &&& self.sources.same_origins(other.sources)
    }

    /// A copy of this car.
    pub fn duplicate(&self) -> (r: ResolvedCar<N>)
        ensures
            r.same_as(*self),
    {
        ResolvedCar {
            name: self.name.clone(),
            weight_lbs: self.weight_lbs,
            hp_peak: self.hp_peak,
            driven_wheels: self.driven_wheels,
            tq_peak: self.tq_peak,
            rpm_hp: self.rpm_hp,
            rpm_tq: self.rpm_tq,
            redline: self.redline,
            gears: copy_values(&self.gears),
            final_drive: self.final_drive,
            cd: self.cd,
            frontal_area_sqft: self.frontal_area_sqft,
            tire_diameter_in: self.tire_diameter_in,
            shift_time_s: self.shift_time_s,
            launch_rpm: self.launch_rpm,
            cg_height_in: self.cg_height_in,
            wheelbase_in: self.wheelbase_in,
            weight_dist_rear_pct: self.weight_dist_rear_pct,
            tire_mu: self.tire_mu,
            drivetrain_loss_pct: self.drivetrain_loss_pct,
            sources: self.sources.duplicate(),
        }
    }
}

/// What ends a race: covering a distance, or reaching a speed.
#[derive(Debug, Clone)]
pub enum RaceTarget<N> {
    Distance { feet: N },
    Speed { mph: N },
}

/// A race event: its name, the speed at the start and the finish condition.
#[derive(Debug, Clone)]
pub struct RacePreset<N> {
    pub name: String,
    pub start_mph: N,
    pub target: RaceTarget<N>,
}

/// The outcome of one car in one race.
#[derive(Debug, Clone)]
pub struct RaceResult<N> {
    pub time_s: N,
    pub final_speed_mph: N,
    pub completed: bool,
    pub dnf_reason: Option<String>,
}

/// Both cars' outcomes in one race, with the winner and the winning margin.
#[derive(Debug, Clone)]
pub struct RaceComparison<N> {
    pub race_name: String,
    pub result_a: RaceResult<N>,
    pub result_b: RaceResult<N>,
    pub winner: Option<String>,
    pub margin_s: N,
}

/// Everything a comparison of two cars reports.
#[derive(Debug, Clone)]
pub struct ComparisonResult<N> {
    pub car_a: ResolvedCar<N>,
    pub car_b: ResolvedCar<N>,
    pub races: Vec<RaceComparison<N>>,
    pub confidence_a: N,
    pub confidence_b: N,
    pub details_a: Vec<crate::confidence::FieldDetail>,
    pub details_b: Vec<crate::confidence::FieldDetail>,
}

/// Ambient conditions of a race.
#[derive(Debug, Clone)]
pub struct EnvironmentInput<N> {
    pub name: Option<String>,
    pub air_density_kgm3: Option<N>,
}

} // verus!
