//! Reference machine which passes sequence input through unmodified.
use crate::machine::Machine;
use crate::machine_resources::MachineResources;
use crate::param::{params_of, ParamList};
use crate::storage::param_list_new;
use crate::Sequence;
use vstd::prelude::*;

verus! {

/// A machine without parameters that hands back the sequence it is given.
#[derive(Debug)]
pub struct UnitMachine {
    params: ParamList,
}

impl UnitMachine {
    /// A unit machine, which has no parameters.
    pub fn new() -> (r: UnitMachine)
        ensures
            params_of(r.spec_params()).len() == 0,
    {
        UnitMachine { params: param_list_new() }
    }
}

impl Machine for UnitMachine {
    closed spec fn spec_params(&self) -> ParamList {
        self.params
    }

    open spec fn ready(&self) -> bool {
        true
    }

    fn name(&self) -> (r: &str)
        ensures
            r@ == "UNIT"@,
    {
        "UNIT"
    }

    fn params(&self) -> (r: &ParamList) {
        &self.params
    }

    fn params_mut(&mut self) -> (r: &mut ParamList) {
        &mut self.params
    }

    fn apply(&self, sequence: Sequence, machine_resources: &mut MachineResources) -> (r: Sequence)
        ensures
            r@ == sequence@,
    {
        sequence
    }
}

} // verus!
