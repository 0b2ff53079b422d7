//! Machines generate sequences. Each track has two: a rhythm machine, which decides which
//! steps play, and a melody machine, which decides their notes.
pub mod grids_rhythm_machine;
pub mod rand_melody_machine;
pub mod unit_machine;

use crate::machine::grids_rhythm_machine::{grids_rhythm, grids_settings, GridsRhythmMachine};
use crate::machine::rand_melody_machine::{rand_melody_steps, RandMelodyMachine};
use crate::machine::unit_machine::UnitMachine;
use crate::machine_resources::MachineResources;
use crate::param::{params_of, ParamList};
use crate::{Sequence, Step};
use vstd::prelude::*;
use vstd::std_specs::convert::TryFromSpecImpl;

verus! {

/// A `Machine` represents a sequence generator that can be controlled via a list of parameters.
/// Each track has two machines: one generates the rhythm, one the melody.
pub trait Machine {
    /// The machine's parameters.
    spec fn spec_params(&self) -> ParamList;

    /// Whether the parameters hold values that the machine can generate with.
    spec fn ready(&self) -> bool;

    /// Name of the machine, as shown on the display.
    fn name(&self) -> (r: &str);

    /// Generate: transform `sequence`, keeping its length.
    fn apply(&self, sequence: Sequence, machine_resources: &mut MachineResources) -> (r: Sequence)
        requires
            self.ready(),
        ensures
            r@.len() == sequence@.len(),
    ;

    /// The machine's parameters.
    fn params(&self) -> (r: &ParamList)
        ensures
            *r == self.spec_params(),
    ;

    /// The machine's parameters, to change in place.
    fn params_mut(&mut self) -> (r: &mut ParamList)
        ensures
            *r == old(self).spec_params(),
            final(self).spec_params() == *final(r),
    ;
}

/// The rhythm machines a track can use.
#[derive(Clone, Copy, Debug, PartialEq, Eq, Structural)]
pub enum RhythmMachineId {
    Unit,
    Euclid,
    Grids,
}

impl RhythmMachineId {
    /// The machine's position in the list of rhythm machines.
    pub open spec fn index(self) -> u8 {
        match self {
            RhythmMachineId::Unit => 0,
            RhythmMachineId::Euclid => 1,
            RhythmMachineId::Grids => 2,
        }
    }

    /// The rhythm machine at position `value` in the list.
    pub open spec fn from_index(value: u8) -> Option<RhythmMachineId> {
        if value == 0 {
            Some(RhythmMachineId::Unit)
        } else if value == 1 {
            Some(RhythmMachineId::Euclid)
        } else if value == 2 {
            Some(RhythmMachineId::Grids)
        } else {
            None
        }
    }

    /// The machine's position in the list of rhythm machines.
    pub fn to_u8(self) -> (r: u8)
        ensures
            r == self.index(),
    {
        match self {
            RhythmMachineId::Unit => 0,
            RhythmMachineId::Euclid => 1,
            RhythmMachineId::Grids => 2,
        }
    }

    /// Name of the machine, as shown on the display.
    pub open spec fn display_name(self) -> Seq<char> {
        match self {
            RhythmMachineId::Unit => "UNIT"@,
            RhythmMachineId::Euclid => "EUCLID"@,
            RhythmMachineId::Grids => "GRIDS"@,
        }
    }

    /// The name is short ASCII text: at most six characters.
    pub proof fn lemma_display_name_short(self)
        ensures
            self.display_name().len() <= 6,
            vstd::utf8::is_ascii_chars(self.display_name()),
    {
        match self {
            RhythmMachineId::Unit => reveal_strlit("UNIT"),
            RhythmMachineId::Euclid => reveal_strlit("EUCLID"),
            RhythmMachineId::Grids => reveal_strlit("GRIDS"),
        }
    }

    /// Name of the machine, as shown on the display.
    pub fn name(&self) -> (r: &'static str)
        ensures
            r@ == self.display_name(),
    {
        match self {
            RhythmMachineId::Unit => "UNIT",
            RhythmMachineId::Euclid => "EUCLID",
            RhythmMachineId::Grids => "GRIDS",
        }
    }
}

impl Default for RhythmMachineId {
    fn default() -> (r: RhythmMachineId)
        ensures
            r == RhythmMachineId::Euclid,
    {
        RhythmMachineId::Euclid
    }
}

impl TryFrom<u8> for RhythmMachineId {
    type Error = ();

    /// The rhythm machine at position `value` in the list; fails past the last machine.
    fn try_from(value: u8) -> (r: Result<RhythmMachineId, ()>) {
        if value == 0 {
            Ok(RhythmMachineId::Unit)
        } else if value == 1 {
            Ok(RhythmMachineId::Euclid)
        } else if value == 2 {
            Ok(RhythmMachineId::Grids)
        } else {
            Err(())
        }
    }
}

impl TryFromSpecImpl<u8> for RhythmMachineId {
    open spec fn obeys_try_from_spec() -> bool {
        true
    }

    open spec fn try_from_spec(v: u8) -> Result<RhythmMachineId, ()> {
        match RhythmMachineId::from_index(v) {
            Some(m) => Ok(m),
            None => Err(()),
        }
    }
}

/// The groove machines a track can use.
#[derive(Clone, Copy, Debug, PartialEq, Eq, Structural)]
pub enum GrooveMachineId {
    Unit,
    Euclid,
}

impl GrooveMachineId {
    /// The machine's position in the list of groove machines.
    pub open spec fn index(self) -> u8 {
        match self {
            GrooveMachineId::Unit => 0,
            GrooveMachineId::Euclid => 1,
        }
    }

    /// The groove machine at position `value` in the list.
    pub open spec fn from_index(value: u8) -> Option<GrooveMachineId> {
        if value == 0 {
            Some(GrooveMachineId::Unit)
        } else if value == 1 {
            Some(GrooveMachineId::Euclid)
        } else {
            None
        }
    }

    /// The machine's position in the list of groove machines.
    pub fn to_u8(self) -> (r: u8)
        ensures
            r == self.index(),
    {
        match self {
            GrooveMachineId::Unit => 0,
            GrooveMachineId::Euclid => 1,
        }
    }

    /// Name of the machine, as shown on the display.
    pub open spec fn display_name(self) -> Seq<char> {
        match self {
            GrooveMachineId::Unit => "UNIT"@,
            GrooveMachineId::Euclid => "EUCLID"@,
        }
    }

    /// The name is short ASCII text: at most six characters.
    pub proof fn lemma_display_name_short(self)
        ensures
            self.display_name().len() <= 6,
            vstd::utf8::is_ascii_chars(self.display_name()),
    {
        match self {
            GrooveMachineId::Unit => reveal_strlit("UNIT"),
            GrooveMachineId::Euclid => reveal_strlit("EUCLID"),
        }
    }

    /// Name of the machine, as shown on the display.
    pub fn name(&self) -> (r: &'static str)
        ensures
            r@ == self.display_name(),
    {
        match self {
            GrooveMachineId::Unit => "UNIT",
            GrooveMachineId::Euclid => "EUCLID",
        }
    }
}

impl Default for GrooveMachineId {
    fn default() -> (r: GrooveMachineId)
        ensures
            r == GrooveMachineId::Unit,
    {
        GrooveMachineId::Unit
    }
}

impl TryFrom<u8> for GrooveMachineId {
    type Error = ();

    /// The groove machine at position `value` in the list; fails past the last machine.
    fn try_from(value: u8) -> (r: Result<GrooveMachineId, ()>) {
        if value == 0 {
            Ok(GrooveMachineId::Unit)
        } else if value == 1 {
            Ok(GrooveMachineId::Euclid)
        } else {
            Err(())
        }
    }
}

impl TryFromSpecImpl<u8> for GrooveMachineId {
    open spec fn obeys_try_from_spec() -> bool {
        true
    }

    open spec fn try_from_spec(v: u8) -> Result<GrooveMachineId, ()> {
        match GrooveMachineId::from_index(v) {
            Some(m) => Ok(m),
            None => Err(()),
        }
    }
}

/// The melody machines a track can use.
#[derive(Clone, Copy, Debug, PartialEq, Eq, Structural)]
pub enum MelodyMachineId {
    Unit,
    Rand,
}

impl MelodyMachineId {
    /// The machine's position in the list of melody machines.
    pub open spec fn index(self) -> u8 {
        match self {
            MelodyMachineId::Unit => 0,
            MelodyMachineId::Rand => 1,
        }
    }

    /// The melody machine at position `value` in the list.
    pub open spec fn from_index(value: u8) -> Option<MelodyMachineId> {
        if value == 0 {
            Some(MelodyMachineId::Unit)
        } else if value == 1 {
            Some(MelodyMachineId::Rand)
        } else {
            None
        }
    }

    /// The machine's position in the list of melody machines.
    pub fn to_u8(self) -> (r: u8)
        ensures
            r == self.index(),
    {
        match self {
            MelodyMachineId::Unit => 0,
            MelodyMachineId::Rand => 1,
        }
    }

    /// Name of the machine, as shown on the display.
    pub open spec fn display_name(self) -> Seq<char> {
        match self {
            MelodyMachineId::Unit => "UNIT"@,
            MelodyMachineId::Rand => "RAND"@,
        }
    }

    /// The name is short ASCII text: at most six characters.
    pub proof fn lemma_display_name_short(self)
        ensures
            self.display_name().len() <= 6,
            vstd::utf8::is_ascii_chars(self.display_name()),
    {
        match self {
            MelodyMachineId::Unit => reveal_strlit("UNIT"),
            MelodyMachineId::Rand => reveal_strlit("RAND"),
        }
    }

    /// Name of the machine, as shown on the display.
    pub fn name(&self) -> (r: &'static str)
        ensures
            r@ == self.display_name(),
    {
        match self {
            MelodyMachineId::Unit => "UNIT",
            MelodyMachineId::Rand => "RAND",
        }
    }
}

impl Default for MelodyMachineId {
    fn default() -> (r: MelodyMachineId)
        ensures
            r == MelodyMachineId::Rand,
    {
        MelodyMachineId::Rand
    }
}

impl TryFrom<u8> for MelodyMachineId {
    type Error = ();

    /// The melody machine at position `value` in the list; fails past the last machine.
    fn try_from(value: u8) -> (r: Result<MelodyMachineId, ()>) {
        if value == 0 {
            Ok(MelodyMachineId::Unit)
        } else if value == 1 {
            Ok(MelodyMachineId::Rand)
        } else {
            Err(())
        }
    }
}

impl TryFromSpecImpl<u8> for MelodyMachineId {
    open spec fn obeys_try_from_spec() -> bool {
        true
    }

    open spec fn try_from_spec(v: u8) -> Result<MelodyMachineId, ()> {
        match MelodyMachineId::from_index(v) {
            Some(m) => Ok(m),
            None => Err(()),
        }
    }
}


/// Failure to find a machine.
#[derive(Debug)]
pub enum MachineError {
    UnknowMachine(heapless::String<6>),
}

/// One of the library's machines.
#[derive(Debug)]
pub enum AnyMachine {
    Unit(UnitMachine),
    Rand(RandMelodyMachine),
    Grids(GridsRhythmMachine),
}

impl AnyMachine {
    /// `output` is a sequence that the machine can make of `input`, given what random numbers
    /// it may draw.
    pub open spec fn generates(self, input: Seq<Option<Step>>, output: Seq<Option<Step>>) -> bool {
        match self {
            AnyMachine::Unit(_) => output == input,
            AnyMachine::Rand(m) => exists|rand: u64|
                output == rand_melody_steps(input, rand, m.root()->0.value() as int, m.range()->0 as int),
            AnyMachine::Grids(m) => match grids_settings(params_of(m.spec_params())) {
                Some((instrument, table, fill, perturbation)) => grids_rhythm(
                    input,
                    table,
                    instrument,
                    fill,
                    perturbation,
                    output,
                ),
                None => false,
            },
        }
    }

    /// The machine is as its kind's `new` makes it: a unit machine without parameters; a
    /// random melody machine with root note middle C and a range of 12; a Grids machine
    /// playing the bass drum of the first table with fill 4 and no perturbation.
    pub open spec fn fresh(self) -> bool {
        match self {
            AnyMachine::Unit(m) => params_of(m.spec_params()).len() == 0,
            AnyMachine::Rand(m) => m.root() matches Some(n) && n.value() == 60 && m.range() == Some(12u8),
            AnyMachine::Grids(m) => grids_settings(params_of(m.spec_params())) == Some(
                (crate::machine::grids_rhythm_machine::Instrument::BD, 0u8, 4u8, 0u8),
            ),
        }
    }

    /// The machine's name, as shown on the display.
    pub open spec fn machine_name(self) -> Seq<char> {
        match self {
            AnyMachine::Unit(_) => "UNIT"@,
            AnyMachine::Rand(_) => "RAND"@,
            AnyMachine::Grids(_) => "GRIDS"@,
        }
    }

    /// `self` and `other` are machines of the same kind.
    pub open spec fn same_kind(self, other: AnyMachine) -> bool {
        match (self, other) {
            (AnyMachine::Unit(_), AnyMachine::Unit(_)) => true,
            (AnyMachine::Rand(_), AnyMachine::Rand(_)) => true,
            (AnyMachine::Grids(_), AnyMachine::Grids(_)) => true,
            _ => false,
        }
    }

    /// A new machine of the rhythm machine `id`. There is none for `Euclid`.
    pub fn from_rhythm_machine_id(id: RhythmMachineId) -> (r: Option<AnyMachine>)
        ensures
            match id {
                RhythmMachineId::Unit => r matches Some(AnyMachine::Unit(_)),
                RhythmMachineId::Euclid => r is None,
                RhythmMachineId::Grids => r matches Some(AnyMachine::Grids(_)),
            },
            r matches Some(m) ==> m.fresh() && m.ready(),
    {
        match id {
            RhythmMachineId::Unit => Some(AnyMachine::Unit(UnitMachine::new())),
            RhythmMachineId::Euclid => None,
            RhythmMachineId::Grids => Some(AnyMachine::Grids(GridsRhythmMachine::new())),
        }
    }

    /// Whether the machine's parameters hold values that it can generate with.
    pub fn is_ready(&self) -> (r: bool)
        ensures
            r == self.ready(),
    {
        match self {
            AnyMachine::Unit(_) => true,
            AnyMachine::Rand(m) => m.is_ready(),
            AnyMachine::Grids(m) => m.is_ready(),
        }
    }

    /// A new machine of the melody machine `id`.
    pub fn from_melody_machine_id(id: MelodyMachineId) -> (r: AnyMachine)
        ensures
            match id {
                MelodyMachineId::Unit => r is Unit,
                MelodyMachineId::Rand => r is Rand,
            },
            r.fresh(),
            r.ready(),
    {
        match id {
            MelodyMachineId::Unit => AnyMachine::Unit(UnitMachine::new()),
            MelodyMachineId::Rand => AnyMachine::Rand(RandMelodyMachine::new()),
        }
    }
}

impl Machine for AnyMachine {
    closed spec fn spec_params(&self) -> ParamList {
        match self {
            AnyMachine::Unit(m) => m.spec_params(),
            AnyMachine::Rand(m) => m.spec_params(),
            AnyMachine::Grids(m) => m.spec_params(),
        }
    }

    open spec fn ready(&self) -> bool {
        match self {
            AnyMachine::Unit(m) => m.ready(),
            AnyMachine::Rand(m) => m.ready(),
            AnyMachine::Grids(m) => m.ready(),
        }
    }

    fn name(&self) -> (r: &str)
        ensures
            r@ == self.machine_name(),
    {
        match self {
            AnyMachine::Unit(m) => m.name(),
            AnyMachine::Rand(m) => m.name(),
            AnyMachine::Grids(m) => m.name(),
        }
    }

    fn params(&self) -> (r: &ParamList) {
        match self {
            AnyMachine::Unit(m) => m.params(),
            AnyMachine::Rand(m) => m.params(),
            AnyMachine::Grids(m) => m.params(),
        }
    }

    fn params_mut(&mut self) -> (r: &mut ParamList)
        ensures
            final(self).same_kind(*old(self)),
    {
        match self {
            AnyMachine::Unit(m) => m.params_mut(),
            AnyMachine::Rand(m) => m.params_mut(),
            AnyMachine::Grids(m) => m.params_mut(),
        }
    }

    fn apply(&self, sequence: Sequence, machine_resources: &mut MachineResources) -> (r: Sequence)
        ensures
            self.generates(sequence@, r@),
    {
        match self {
            AnyMachine::Unit(m) => m.apply(sequence, machine_resources),
            AnyMachine::Rand(m) => m.apply(sequence, machine_resources),
            AnyMachine::Grids(m) => m.apply(sequence, machine_resources),
        }
    }
}

} // verus!
