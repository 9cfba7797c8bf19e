use vstd::prelude::*;

verus! {

/// Highest hot-end target temperature the printer accepts, in degrees Celsius.
pub const MAX_HOT_END_TEMPERATURE: u32 = 250;

/// The range a hot-end target temperature must lie in.
pub open spec fn valid_hot_end_temperature(t: int) -> bool {
    0 < t <= MAX_HOT_END_TEMPERATURE
}

/// The filament kinds the printer is loaded with.
#[allow(clippy::upper_case_acronyms)]
#[derive(Debug, Copy, Clone, PartialEq, Eq, Structural)]
pub enum Filament {
    PLA,
    PETG,
    TPU,
}

/// The filament a name stands for, if any.
pub open spec fn filament_named(s: Seq<char>) -> Option<Filament> {
    if s == "PLA"@ {
        Some(Filament::PLA)
    } else if s == "PETG"@ {
        Some(Filament::PETG)
    } else if s == "TPU"@ {
        Some(Filament::TPU)
    } else {
        None
    }
}

/// The hot-end temperature, in degrees, that a filament is worked at.
pub open spec fn filament_degrees(f: Filament) -> u32 {
    match f {
        Filament::PLA => 200,
        Filament::PETG => 230,
        Filament::TPU => 220,
    }
}

/// Whether a reading `actual`, in hundredths of a degree, is within five degrees
/// of `target` degrees, both ends included.
pub open spec fn within_five_degrees(target: int, actual: int) -> bool {
    -500 <= 100 * target - actual <= 500
}

/// The hot-end temperature a filament is worked at.
pub open spec fn filament_target(f: Filament) -> HotEndTemperature {
    choose|t: HotEndTemperature| t.view_degrees() == filament_degrees(f)
}

/// The target temperature of a filament has that filament's degrees.
pub proof fn lemma_filament_target_degrees(f: Filament)
    ensures
        filament_target(f).view_degrees() == filament_degrees(f),
{
    let t = HotEndTemperature(filament_degrees(f));
    assert(t.view_degrees() == filament_degrees(f));
}

impl Filament {
    /// Reads a filament from its name (`"PLA"`, `"PETG"` or `"TPU"`).
    pub fn parse(s: &str) -> (r: Result<Filament, ()>)
        ensures
            filament_named(s@) is Some ==> r == Ok::<Filament, ()>(filament_named(s@)->0),
            filament_named(s@) is None ==> r is Err,
    {
        let name = s.to_owned();
        if name == "PLA".to_owned() {
            Ok(Filament::PLA)
        } else if name == "PETG".to_owned() {
            Ok(Filament::PETG)
        } else if name == "TPU".to_owned() {
            Ok(Filament::TPU)
        } else {
            Err(())
        }
    }
}

impl std::str::FromStr for Filament {
    type Err = ();

    fn from_str(s: &str) -> Result<Filament, ()> {
        Filament::parse(s)
    }
}

/// A hot-end target temperature in whole degrees Celsius, always in `(0, 250]`.
#[derive(Debug, Copy, Clone, PartialEq, Eq, PartialOrd, Ord)]
pub struct HotEndTemperature(u32);

impl HotEndTemperature {
    #[verifier::type_invariant]
    spec fn in_range(self) -> bool {
        valid_hot_end_temperature(self.0 as int)
    }

    /// The temperature in degrees.
    pub closed spec fn view_degrees(self) -> u32 {
        self.0
    }

    /// Accepts `temp` exactly when it lies in `(0, 250]`.
    pub fn new(temp: u32) -> (r: Option<Self>)
        ensures
            r is Some <==> valid_hot_end_temperature(temp as int),
            r is Some ==> r->0.view_degrees() == temp,
    {
        if temp > 0 && temp <= MAX_HOT_END_TEMPERATURE {
            Some(Self(temp))
        } else {
            None
        }
    }

    /// The temperature in degrees; always in `(0, 250]`.
    pub fn degrees(&self) -> (r: u32)
        ensures
            r == self.view_degrees(),
            valid_hot_end_temperature(r as int),
    {
        proof {
            use_type_invariant(self);
        }
        self.0
    }

    /// Whether the reading `actual`, in hundredths of a degree, is within five
    /// degrees of this temperature.
    pub fn within_5_degrees_of(&self, actual: i64) -> (r: bool)
        ensures
            r == within_five_degrees(self.view_degrees() as int, actual as int),
    {
        let centi = self.degrees() as i64 * 100;
        actual >= centi - 500 && actual <= centi + 500
    }
}

impl From<HotEndTemperature> for u32 {
    fn from(temp: HotEndTemperature) -> (r: u32) {
        temp.degrees()
    }
}

impl vstd::std_specs::convert::FromSpecImpl<HotEndTemperature> for u32 {
    open spec fn obeys_from_spec() -> bool {
        true
    }

    open spec fn from_spec(temp: HotEndTemperature) -> u32 {
        temp.view_degrees()
    }
}

impl From<HotEndTemperature> for i64 {
    fn from(temp: HotEndTemperature) -> (r: i64) {
        temp.degrees() as i64
    }
}

impl vstd::std_specs::convert::FromSpecImpl<HotEndTemperature> for i64 {
    open spec fn obeys_from_spec() -> bool {
        true
    }

    open spec fn from_spec(temp: HotEndTemperature) -> i64 {
        temp.view_degrees() as i64
    }
}

impl From<Filament> for HotEndTemperature {
    fn from(filament: Filament) -> (r: HotEndTemperature) {
        let degrees: u32 = match filament {
            Filament::PLA => 200,
            Filament::PETG => 230,
            Filament::TPU => 220,
        };
        let r = HotEndTemperature(degrees);
        assert(r.view_degrees() == filament_degrees(filament));
        assert(r == filament_target(filament));
        r
    }
}

impl vstd::std_specs::convert::FromSpecImpl<Filament> for HotEndTemperature {
    open spec fn obeys_from_spec() -> bool {
        true
    }

    open spec fn from_spec(filament: Filament) -> HotEndTemperature {
        filament_target(filament)
    }
}

} // verus!
