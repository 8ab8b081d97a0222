//! Trigger sources and the semantic events they produce.

use crate::hass_zha::HassZhaConfig;
use vstd::prelude::*;

verus! {

/// A semantic event: a cataloged device's button, by their symbolic names.
#[derive(Debug)]
pub struct Event {
    pub device: String,
    pub name: String,
}

/// The configuration of one trigger source, one variant per backend kind.
#[derive(Debug)]
pub enum TriggerSpec {
    HassZha(HassZhaConfig),
}

} // verus!
