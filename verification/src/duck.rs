//! Ducks that quack and swim, each kind in its own way.

use vstd::prelude::*;
use vstd::string::StringExecFns;

verus! {

/// What a duck answers when it is sent swimming while it swims.
pub const ALREADY_SWIMMING: &'static str = "Can't start swimming. Already swimming.";

/// What a duck answers when it is called out of the water while it is not in.
pub const NOT_SWIMMING: &'static str = "Can't stop swimming. Not swimming.";

/// How a truth value is written out.
pub open spec fn bool_text(b: bool) -> Seq<char> {
    if b {
        "true"@
    } else {
        "false"@
    }
}

/// If it swims like a duck and quacks like a duck then it is a duck.
pub trait Duck {
    /// The duck's name.
    spec fn name_text(&self) -> Seq<char>;

    /// Whether the duck swims.
    spec fn swims(&self) -> bool;

    /// What the duck says.
    spec fn quack_text(&self) -> Seq<char>;

    /// The duck in words: its kind, its name and what it is doing.
    spec fn description(&self) -> Seq<char>;

    /// What the duck says.
    fn quack(&self) -> (sound: String)
        ensures
            sound@ == self.quack_text(),
    ;

    /// Sends the duck swimming. A duck that swims already refuses and stays
    /// as it is.
    fn start_swiming(&mut self) -> (r: Result<(), &'static str>)
        ensures
            r == if old(self).swims() {
                Err::<(), &'static str>(ALREADY_SWIMMING)
            } else {
                Ok::<(), &'static str>(())
            },
            final(self).swims(),
            final(self).name_text() == old(self).name_text(),
    ;

    /// Whether the duck swims.
    fn is_swimming(&self) -> (b: bool)
        ensures
            b == self.swims(),
    ;

    /// Calls the duck out of the water. A duck that does not swim refuses and
    /// stays as it is.
    fn stop_swiming(&mut self) -> (r: Result<(), &'static str>)
        ensures
            r == if old(self).swims() {
                Ok::<(), &'static str>(())
            } else {
                Err::<(), &'static str>(NOT_SWIMMING)
            },
            !final(self).swims(),
            final(self).name_text() == old(self).name_text(),
    ;

    /// The duck in words.
    fn describe(&self) -> (text: String)
        ensures
            text@ == self.description(),
    ;
}

/// A duck that cannot fly.
#[derive(Debug)]
pub struct FlightlessDuck {
    pub name: String,
    pub swimming: bool,
}

/// A duck that can fly.
#[derive(Debug)]
pub struct FlightfulDuck {
    pub name: String,
    pub swimming: bool,
    pub flying: bool,
}

/// Writes out a truth value.
fn bool_to_str(b: bool) -> (s: &'static str)
    ensures
        s@ == bool_text(b),
{
    if b {
        "true"
    } else {
        "false"
    }
}

impl Duck for FlightlessDuck {
    open spec fn name_text(&self) -> Seq<char> {
        self.name@
    }

    open spec fn swims(&self) -> bool {
        self.swimming
    }

    open spec fn quack_text(&self) -> Seq<char> {
        self.name@ + " says quack but they can't fly :("@
    }

    open spec fn description(&self) -> Seq<char> {
        "FlightlessDuck named "@ + self.name@ + " and swim status is "@ + bool_text(
            self.swimming,
        )
    }

    fn quack(&self) -> (sound: String) {
        self.name.clone().concat(" says quack but they can't fly :(")
    }

    fn start_swiming(&mut self) -> (r: Result<(), &'static str>)
        ensures
            final(self).name == old(self).name,
    {
        match self.is_swimming() {
            true => Err(ALREADY_SWIMMING),
            false => {
                self.swimming = true;
                Ok(())
            },
        }
    }

    fn is_swimming(&self) -> (b: bool) {
        self.swimming
    }

    fn stop_swiming(&mut self) -> (r: Result<(), &'static str>)
        ensures
            final(self).name == old(self).name,
    {
        match self.is_swimming() {
            false => Err(NOT_SWIMMING),
            true => {
                self.swimming = false;
                Ok(())
            },
        }
    }

    fn describe(&self) -> (text: String) {
        String::from_str("FlightlessDuck named ").concat(self.name.as_str()).concat(
            " and swim status is ",
        ).concat(bool_to_str(self.swimming))
    }
}

impl Duck for FlightfulDuck {
    open spec fn name_text(&self) -> Seq<char> {
        self.name@
    }

    open spec fn swims(&self) -> bool {
        self.swimming
    }

    open spec fn quack_text(&self) -> Seq<char> {
        self.name@ + " says quack but they also can fly ;)"@
    }

    open spec fn description(&self) -> Seq<char> {
        "FlightfulDuck named "@ + self.name@ + " and swim status is "@ + bool_text(
            self.swimming,
        ) + " and flight status is "@ + bool_text(self.flying)
    }

    fn quack(&self) -> (sound: String) {
        self.name.clone().concat(" says quack but they also can fly ;)")
    }

    fn start_swiming(&mut self) -> (r: Result<(), &'static str>)
        ensures
            final(self).name == old(self).name,
            final(self).flying == old(self).flying,
    {
        match self.is_swimming() {
            true => Err(ALREADY_SWIMMING),
            false => {
                self.swimming = true;
                Ok(())
            },
        }
    }

    fn is_swimming(&self) -> (b: bool) {
        self.swimming
    }

    fn stop_swiming(&mut self) -> (r: Result<(), &'static str>)
        ensures
            final(self).name == old(self).name,
            final(self).flying == old(self).flying,
    {
        match self.is_swimming() {
            false => Err(NOT_SWIMMING),
            true => {
                self.swimming = false;
                Ok(())
            },
        }
    }

    fn describe(&self) -> (text: String) {
        String::from_str("FlightfulDuck named ").concat(self.name.as_str()).concat(
            " and swim status is ",
        ).concat(bool_to_str(self.swimming)).concat(" and flight status is ").concat(
            bool_to_str(self.flying),
        )
    }
}

impl FlightfulDuck {
    /// Whether the duck is in the air.
    pub fn is_flying(&self) -> (b: bool)
        ensures
            b == self.flying,
    {
        self.flying
    }
}

/// A duck of either kind.
#[derive(Debug)]
pub enum AnyDuck {
    Flightless(FlightlessDuck),
    Flightful(FlightfulDuck),
}

impl AnyDuck {
    /// The same duck, in or out of the water: the kind, the name and, for a
    /// duck that can fly, whether it flies are those of `other`.
    pub open spec fn same_duck_as(self, other: AnyDuck) -> bool {
        match (self, other) {
            (AnyDuck::Flightless(a), AnyDuck::Flightless(b)) => a.name == b.name,
            (AnyDuck::Flightful(a), AnyDuck::Flightful(b)) => a.name == b.name && a.flying
                == b.flying,
            _ => false,
        }
    }
}

impl Duck for AnyDuck {
    open spec fn name_text(&self) -> Seq<char> {
        match self {
            AnyDuck::Flightless(d) => d.name_text(),
            AnyDuck::Flightful(d) => d.name_text(),
        }
    }

    open spec fn swims(&self) -> bool {
        match self {
            AnyDuck::Flightless(d) => d.swims(),
            AnyDuck::Flightful(d) => d.swims(),
        }
    }

    open spec fn quack_text(&self) -> Seq<char> {
        match self {
            AnyDuck::Flightless(d) => d.quack_text(),
            AnyDuck::Flightful(d) => d.quack_text(),
        }
    }

    open spec fn description(&self) -> Seq<char> {
        match self {
            AnyDuck::Flightless(d) => d.description(),
            AnyDuck::Flightful(d) => d.description(),
        }
    }

    fn quack(&self) -> (sound: String) {
        match self {
            AnyDuck::Flightless(d) => d.quack(),
            AnyDuck::Flightful(d) => d.quack(),
        }
    }

    fn start_swiming(&mut self) -> (r: Result<(), &'static str>)
        ensures
            final(self).same_duck_as(*old(self)),
    {
        match self {
            AnyDuck::Flightless(d) => d.start_swiming(),
            AnyDuck::Flightful(d) => d.start_swiming(),
        }
    }

    fn is_swimming(&self) -> (b: bool) {
        match self {
            AnyDuck::Flightless(d) => d.is_swimming(),
            AnyDuck::Flightful(d) => d.is_swimming(),
        }
    }

    fn stop_swiming(&mut self) -> (r: Result<(), &'static str>)
        ensures
            final(self).same_duck_as(*old(self)),
    {
        match self {
            AnyDuck::Flightless(d) => d.stop_swiming(),
            AnyDuck::Flightful(d) => d.stop_swiming(),
        }
    }

    fn describe(&self) -> (text: String) {
        match self {
            AnyDuck::Flightless(d) => d.describe(),
            AnyDuck::Flightful(d) => d.describe(),
        }
    }
}

/// Two ducks on dry land: Donald, who cannot fly, then Roger, who can.
pub fn get_ducks() -> (ducks: Vec<AnyDuck>)
    ensures
        ducks@.len() == 2,
        ducks@[0] matches AnyDuck::Flightless(d) && d.name@ == "Donald"@ && !d.swimming,
        ducks@[1] matches AnyDuck::Flightful(d) && d.name@ == "Roger"@ && !d.swimming
            && !d.flying,
{
    vec![
        AnyDuck::Flightless(FlightlessDuck { name: String::from_str("Donald"), swimming: false }),
        AnyDuck::Flightful(
            FlightfulDuck { name: String::from_str("Roger"), swimming: false, flying: false },
        ),
    ]
}

} // verus!
