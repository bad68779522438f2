//! What is known of the battery.

use vstd::prelude::*;

use crate::models::settings::Real;

verus! {

/// A reading of energy or power, kept as it was given.
#[derive(Debug, Clone, Copy, PartialEq, Eq, Structural)]
pub enum Quantity {
    /// A number of millionths of the unit.
    Micro(u64),
    /// The product of a number of microampere (hours) and a number of microvolts.
    Product(u64, u64),
    /// A number of units that another program has sent.
    Units(Real),
}

/// The state of the battery and of its charge limit.
#[derive(Debug, Clone)]
pub struct BatteryStatus {
    pub present: bool,
    pub capacity_percent: Option<u8>,
    /// The stored energy, in watt hours.
    pub energy_wh: Option<Quantity>,
    /// The power drawn from the battery, in watts.
    pub discharge_power_w: Option<Quantity>,
    pub state: String,
    pub charge_limit_supported: bool,
    pub configured_charge_limit_percent: u8,
    pub active_charge_limit_percent: Option<u8>,
}

}
