//! The configuration data the core consumes: named trigger-source
//! registrations and the flat list of trigger-to-action bindings. Loading
//! and parsing the configuration file is the caller's part; the core only
//! reads these tables.

use crate::actions::ActionSpec;
use crate::triggers::TriggerSpec;
use vstd::prelude::*;

verus! {

/// One binding of a fully-qualified trigger identifier to an action.
/// Several mappings may share a trigger; all of them fire, in order.
#[derive(Debug)]
pub struct Mapping {
    pub trigger: String,
    pub action: ActionSpec,
}

/// A named registration of one trigger source.
#[derive(Debug)]
pub struct NamedTriggerSpec {
    pub name: String,
    pub source: TriggerSpec,
}

/// The whole configuration, loaded once and read-only thereafter.
#[derive(Debug)]
pub struct Config {
    pub triggers: Vec<NamedTriggerSpec>,
    pub mapping: Vec<Mapping>,
}

} // verus!
