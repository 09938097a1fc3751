use vstd::prelude::*;
use vstd::string::*;
use crate::types::{RacePreset, RaceTarget};

verus! {

/// A table of named profiles: each name occurs at most once, and looking a
/// name up gives the profile stored under it.
#[derive(Debug)]
pub struct ProfileTable<P> {
    entries: Vec<(String, P)>,
}

/// `k` is the name of some entry of `s`.
pub open spec fn names_contain<P>(s: Seq<(String, P)>, k: Seq<char>) -> bool {
    exists|i: int| 0 <= i < s.len() && (#[trigger] s[i]).0@ == k
}

/// No two entries of `s` share a name.
pub open spec fn names_distinct<P>(s: Seq<(String, P)>) -> bool {
    forall|i: int, j: int|
        0 <= i < s.len() && 0 <= j < s.len() && i != j ==> (#[trigger] s[i]).0@ != (#[trigger] s[j]).0@
}

/// Position of an entry named `k` in `s`.
pub open spec fn name_index<P>(s: Seq<(String, P)>, k: Seq<char>) -> int {
    choose|i: int| 0 <= i < s.len() && (#[trigger] s[i]).0@ == k
}

/// The map from names to profiles that an entry list denotes.
pub open spec fn entries_view<P>(s: Seq<(String, P)>) -> Map<Seq<char>, P> {
    Map::new(|k: Seq<char>| names_contain(s, k), |k: Seq<char>| s[name_index(s, k)].1)
}

/// In a list with distinct names, the entry at `i` is what its name maps to.
proof fn lemma_entry_in_view<P>(s: Seq<(String, P)>, i: int)
    requires
        names_distinct(s),
        0 <= i < s.len(),
    ensures
        entries_view(s).contains_key(s[i].0@),
        entries_view(s)[s[i].0@] == s[i].1,
{
    assert(names_contain(s, s[i].0@));
    let j = name_index(s, s[i].0@);
    assert(s[j].0@ == s[i].0@);
}

/// Appending a fresh name to a list with distinct names adds one binding.
proof fn lemma_push_fresh<P>(s: Seq<(String, P)>, key: String, value: P)
    requires
        names_distinct(s),
        !names_contain(s, key@),
    ensures
        names_distinct(s.push((key, value))),
        entries_view(s.push((key, value))) =~= entries_view(s).insert(key@, value),
{
    let t = s.push((key, value));
    assert forall|i: int, j: int|
        0 <= i < t.len() && 0 <= j < t.len() && i != j implies (#[trigger] t[i]).0@ != (
    #[trigger] t[j]).0@ by {
        if i == s.len() as int {
            assert(t[j] == s[j]);
        } else if j == s.len() as int {
            assert(t[i] == s[i]);
        } else {
            assert(t[i] == s[i] && t[j] == s[j]);
        }
    }
    assert forall|k: Seq<char>| #[trigger]
        entries_view(t).contains_key(k) == entries_view(s).insert(key@, value).contains_key(k) by {
        if names_contain(t, k) && k != key@ {
            let i = choose|i: int| 0 <= i < t.len() && (#[trigger] t[i]).0@ == k;
            assert(s[i] == t[i]);
        }
        if names_contain(s, k) {
            let i = choose|i: int| 0 <= i < s.len() && (#[trigger] s[i]).0@ == k;
            assert(s[i] == t[i]);
        }
        if k == key@ {
            assert(t[s.len() as int].0@ == k);
        }
    }
    assert forall|k: Seq<char>| #[trigger] entries_view(t).contains_key(k) implies entries_view(t)[k]
        == entries_view(s).insert(key@, value)[k] by {
        if k == key@ {
            lemma_entry_in_view(t, s.len() as int);
        } else {
            let i = choose|i: int| 0 <= i < t.len() && (#[trigger] t[i]).0@ == k;
            assert(s[i] == t[i]);
            lemma_entry_in_view(t, i);
            lemma_entry_in_view(s, i);
        }
    }
}

/// Removing the entry at `i` from a list with distinct names drops its binding.
proof fn lemma_remove_at<P>(s: Seq<(String, P)>, i: int)
    requires
        names_distinct(s),
        0 <= i < s.len(),
    ensures
        names_distinct(s.remove(i)),
        !names_contain(s.remove(i), s[i].0@),
        entries_view(s.remove(i)) =~= entries_view(s).remove(s[i].0@),
{
    let t = s.remove(i);
    assert forall|a: int| 0 <= a < t.len() implies #[trigger] t[a] == s[if a < i {
        a
    } else {
        a + 1
    }] by {}
    assert forall|a: int, b: int|
        0 <= a < t.len() && 0 <= b < t.len() && a != b implies (#[trigger] t[a]).0@ != (
    #[trigger] t[b]).0@ by {
        let a2 = if a < i {
            a
        } else {
            a + 1
        };
        let b2 = if b < i {
            b
        } else {
            b + 1
        };
        assert(t[a] == s[a2] && t[b] == s[b2]);
    }
    if names_contain(t, s[i].0@) {
        let a = choose|a: int| 0 <= a < t.len() && (#[trigger] t[a]).0@ == s[i].0@;
        let a2 = if a < i {
            a
        } else {
            a + 1
        };
        assert(t[a] == s[a2]);
    }
    assert forall|k: Seq<char>| #[trigger]
        entries_view(t).contains_key(k) == entries_view(s).remove(s[i].0@).contains_key(k) by {
        if names_contain(t, k) {
            let a = choose|a: int| 0 <= a < t.len() && (#[trigger] t[a]).0@ == k;
            let a2 = if a < i {
                a
            } else {
                a + 1
            };
            assert(t[a] == s[a2]);
        }
        if names_contain(s, k) && k != s[i].0@ {
            let c = choose|c: int| 0 <= c < s.len() && (#[trigger] s[c]).0@ == k;
            let c2 = if c < i {
                c
            } else {
                c - 1
            };
            assert(t[c2] == s[c]);
        }
    }
    assert forall|k: Seq<char>| #[trigger] entries_view(t).contains_key(k) implies entries_view(t)[k]
        == entries_view(s)[k] by {
        let a = choose|a: int| 0 <= a < t.len() && (#[trigger] t[a]).0@ == k;
        let a2 = if a < i {
            a
        } else {
            a + 1
        };
        assert(t[a] == s[a2]);
        lemma_entry_in_view(t, a);
        lemma_entry_in_view(s, a2);
    }
}

impl<P> ProfileTable<P> {
    #[verifier::type_invariant]
    spec fn distinct(self) -> bool {
        names_distinct(self.entries@)
    }

    /// An empty table.
    pub fn new() -> (t: Self)
        ensures
            t@ == Map::<Seq<char>, P>::empty(),
    {
        let t = ProfileTable { entries: Vec::new() };
        assert(t@ =~= Map::<Seq<char>, P>::empty());
        t
    }

    /// The number of profiles in the table.
    pub fn len(&self) -> (n: usize)
        ensures
            self@.dom().finite(),
            n == self@.dom().len(),
    {
        proof {
            use_type_invariant(self);
            let s = self.entries@;
            let names = Seq::new(s.len(), |i: int| s[i].0@);
            assert(self@.dom() =~= names.to_set()) by {
                assert forall|k: Seq<char>| self@.dom().contains(k) implies names.to_set().contains(
                    k,
                ) by {
                    let i = choose|i: int| 0 <= i < s.len() && (#[trigger] s[i]).0@ == k;
                    assert(names[i] == k);
                }
                assert forall|k: Seq<char>| names.to_set().contains(k) implies self@.dom().contains(
                    k,
                ) by {
                    let i = choose|i: int| 0 <= i < names.len() && names[i] == k;
                    assert(s[i].0@ == k);
                }
            }
            assert(names.no_duplicates()) by {
                assert forall|i: int, j: int|
                    0 <= i < names.len() && 0 <= j < names.len() && i != j implies names[i]
                    != names[j] by {
                    assert(names[i] == s[i].0@ && names[j] == s[j].0@);
                }
            }
            names.unique_seq_to_set();
        }
        self.entries.len()
    }

    /// Looks a profile up by name.
    pub fn get(&self, key: &str) -> (res: Option<&P>)
        ensures
            match res {
                Some(p) => self@.contains_key(key@) && self@[key@] == *p,
                None => !self@.contains_key(key@),
            },
    {
        proof {
            use_type_invariant(self);
        }
        let k = String::from_str(key);
        let mut i: usize = 0;
        while i < self.entries.len()
            invariant
                0 <= i <= self.entries@.len(),
                names_distinct(self.entries@),
                k@ == key@,
                forall|j: int| 0 <= j < i ==> (#[trigger] self.entries@[j]).0@ != key@,
            decreases self.entries.len() - i,
        {
            if self.entries[i].0 == k {
                proof {
                    lemma_entry_in_view(self.entries@, i as int);
                }
                return Some(&self.entries[i].1);
            }
            i += 1;
        }
        None
    }

    /// Whether a profile of that name exists.
    pub fn contains_key(&self, key: &str) -> (b: bool)
        ensures
            b == self@.contains_key(key@),
    {
        match self.get(key) {
            Some(_) => true,
            None => false,
        }
    }

    /// Stores `value` under `key`, replacing any profile of that name.
    pub fn insert(&mut self, key: String, value: P)
        ensures
            final(self)@ == old(self)@.insert(key@, value),
    {
        proof {
            use_type_invariant(&*self);
        }
        let mut entries: Vec<(String, P)> = Vec::new();
        std::mem::swap(&mut entries, &mut self.entries);
        let ghost before = entries@;
        assert(entries_view(before) == old(self)@);
        let mut i: usize = 0;
        while i < entries.len()
            invariant_except_break
                entries@ == before,
                0 <= i <= entries@.len(),
                forall|j: int| 0 <= j < i ==> (#[trigger] entries@[j]).0@ != key@,
            invariant
                names_distinct(before),
            ensures
                names_distinct(entries@),
                !names_contain(entries@, key@),
                entries_view(entries@) =~= entries_view(before).remove(key@),
            decreases entries.len() - i,
        {
            if entries[i].0 == key {
                proof {
                    lemma_remove_at(before, i as int);
                }
                entries.remove(i);
                break;
            }
            i += 1;
        }
        proof {
            lemma_push_fresh(entries@, key, value);
        }
        entries.push((key, value));
        assert(entries_view(entries@) =~= old(self)@.insert(key@, value));
        self.entries = entries;
    }
}

impl<P> View for ProfileTable<P> {
    type V = Map<Seq<char>, P>;

    closed spec fn view(&self) -> Map<Seq<char>, P> {
        entries_view(self.entries@)
    }
}

/// Time-step and termination settings of the race simulation.
#[derive(Debug, Clone)]
pub struct SimulationDefaults<N> {
    pub time_step_s: N,
    pub max_time_s: N,
    pub aero_wall_accel_threshold: N,
    pub aero_wall_min_speed_ms: N,
}

/// Torque-curve synthesis parameters and engine fallbacks.
#[derive(Debug, Clone)]
pub struct EngineDefaults<N> {
    pub idle_rpm: N,
    pub idle_torque_fraction: N,
    pub overrev_torque_fraction: N,
    pub default_rpm_hp: N,
    pub rpm_tq_offset_from_hp: N,
    pub min_rpm_tq: N,
    pub redline_offset_from_hp: N,
    pub tq_from_hp_multiplier: N,
    pub default_launch_rpm: N,
}

/// Chassis, aero and tyre fallbacks.
#[derive(Debug, Clone)]
pub struct ChassisDefaults<N> {
    pub cd: N,
    pub frontal_area_sqft: N,
    pub tire_diameter_in: N,
    pub cg_height_in: N,
    pub wheelbase_in: N,
    pub tire_mu: N,
}

/// Rolling resistance and rotational inertia constants.
#[derive(Debug, Clone)]
pub struct PhysicsConstants<N> {
    pub rolling_resistance_crr: N,
    pub rotational_inertia_base: N,
    pub rotational_inertia_gear_factor: N,
}

/// Loss and weight distribution typical of a drive layout.
#[derive(Debug, Clone)]
pub struct DrivetrainProfile<N> {
    pub loss_pct: N,
    pub weight_dist_rear_pct: N,
}

/// Gearing typical of a transmission type.
#[derive(Debug, Clone)]
pub struct TransmissionProfile<N> {
    pub gears: Vec<N>,
    pub final_drive: N,
    pub shift_time_s: N,
}

/// Values typical of a class of vehicle; any of them may be absent.
#[derive(Debug, Clone)]
pub struct VehicleClassProfile<N> {
    pub cd: Option<N>,
    pub frontal_area_sqft: Option<N>,
    pub cg_height_in: Option<N>,
    pub wheelbase_in: Option<N>,
    pub tire_mu: Option<N>,
    pub drivetrain_loss_pct: Option<N>,
}

/// The layered profile configuration the estimation pipeline draws on.
#[derive(Debug)]
pub struct ProfileConfig<N> {
    pub simulation: SimulationDefaults<N>,
    pub engine_defaults: EngineDefaults<N>,
    pub chassis_defaults: ChassisDefaults<N>,
    pub physics_constants: PhysicsConstants<N>,
    pub drivetrain: ProfileTable<DrivetrainProfile<N>>,
    pub transmission: ProfileTable<TransmissionProfile<N>>,
    pub vehicle_class: Option<ProfileTable<VehicleClassProfile<N>>>,
}

/// A race as written in a preset file: exactly one of the two targets must
/// be given.
#[derive(Debug, Clone)]
pub struct RacePresetEntry<N> {
    pub name: String,
    pub start_mph: N,
    pub target_distance_ft: Option<N>,
    pub target_speed_mph: Option<N>,
}

/// The finish condition an entry describes, when it describes exactly one.
pub open spec fn entry_target<N>(e: RacePresetEntry<N>) -> Option<RaceTarget<N>> {
    match (e.target_distance_ft, e.target_speed_mph) {
        (Some(ft), None) => Some(RaceTarget::Distance { feet: ft }),
        (None, Some(mph)) => Some(RaceTarget::Speed { mph }),
        _ => None,
    }
}

/// A preset entry describes a race exactly when it gives one of the two
/// targets and not the other: a distance alone makes a race to that
/// distance, a speed alone a race to that speed.
pub proof fn lemma_entry_target_meaning<N>(e: RacePresetEntry<N>)
    ensures
        entry_target(e) is Some <==> ((e.target_distance_ft is Some) != (e.target_speed_mph is Some)),
        e.target_distance_ft is Some && e.target_speed_mph is None ==> entry_target(e) == Some(
            (RaceTarget::Distance { feet: e.target_distance_ft->0 }),
        ),
        e.target_speed_mph is Some && e.target_distance_ft is None ==> entry_target(e) == Some(
            (RaceTarget::Speed { mph: e.target_speed_mph->0 }),
        ),
{
}

/// The complaint about an entry that does not describe exactly one target.
pub open spec fn entry_error<N>(e: RacePresetEntry<N>) -> Seq<char> {
    if e.target_distance_ft is Some {
        "Race '"@ + e.name@ + "': specify either target_distance_ft or target_speed_mph, not both"@
    } else {
        "Race '"@ + e.name@ + "': must specify target_distance_ft or target_speed_mph"@
    }
}

/// The finish condition of an entry, or the complaint about it.
pub fn entry_to_target<N: Copy>(e: &RacePresetEntry<N>) -> (res: Result<RaceTarget<N>, String>)
    ensures
        match res {
            Ok(t) => entry_target(*e) == Some(t),
            Err(m) => entry_target(*e) is None && m@ == entry_error(*e),
        },
{
    match (e.target_distance_ft, e.target_speed_mph) {
        (Some(ft), None) => Ok(RaceTarget::Distance { feet: ft }),
        (None, Some(mph)) => Ok(RaceTarget::Speed { mph }),
        (Some(_), Some(_)) => Err(
            String::from_str("Race '").concat(e.name.as_str()).concat(
                "': specify either target_distance_ft or target_speed_mph, not both",
            ),
        ),
        (None, None) => Err(
            String::from_str("Race '").concat(e.name.as_str()).concat(
                "': must specify target_distance_ft or target_speed_mph",
            ),
        ),
    }
}

/// Turns preset-file entries into race presets, in order.  The first entry
/// that does not give exactly one target makes the whole list fail with the
/// complaint about that entry.
pub fn presets_from_entries<N: Copy>(entries: &Vec<RacePresetEntry<N>>) -> (res: Result<
    Vec<RacePreset<N>>,
    String,
>)
    ensures
        match res {
            Ok(v) => {
                &&& forall|i: int| 0 <= i < entries@.len() ==> (#[trigger] entry_target(entries@[i])) is Some
                &&& v@.len() == entries@.len()
                &&& forall|i: int|
                    0 <= i < v@.len() ==> {
                        &&& (#[trigger] v@[i]).name@ == entries@[i].name@
                        &&& v@[i].start_mph == entries@[i].start_mph
                        &&& entry_target(entries@[i]) == Some(v@[i].target)
                    }
            },
            Err(m) => exists|i: int|
                0 <= i < entries@.len() && (#[trigger] entry_target(entries@[i])) is None && m@
                    == entry_error(entries@[i]) && forall|j: int|
                    0 <= j < i ==> (#[trigger] entry_target(entries@[j])) is Some,
        },
{
    let mut out: Vec<RacePreset<N>> = Vec::new();
    let mut i: usize = 0;
    while i < entries.len()
        invariant
            0 <= i <= entries@.len(),
            out@.len() == i,
            forall|j: int| 0 <= j < i ==> (#[trigger] entry_target(entries@[j])) is Some,
            forall|j: int|
                0 <= j < i ==> {
                    &&& (#[trigger] out@[j]).name@ == entries@[j].name@
                    &&& out@[j].start_mph == entries@[j].start_mph
                    &&& entry_target(entries@[j]) == Some(out@[j].target)
                },
        decreases entries.len() - i,
    {
        let e = &entries[i];
        match entry_to_target(e) {
            Ok(target) => {
                out.push(RacePreset { name: e.name.clone(), start_mph: e.start_mph, target });
            },
            Err(m) => {
                assert(entry_target(entries@[i as int]) is None);
                return Err(m);
            },
        }
        i += 1;
    }
    Ok(out)
}

} // verus!
