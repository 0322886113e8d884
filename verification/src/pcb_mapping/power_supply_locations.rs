//! Which DAC channel and digipot channel control each supply.
use vstd::prelude::*;
use crate::dac::DACChannel;
use crate::digipot::DigipotChannel;

verus! {

pub const CATHODE_OFFSET_SUPPLY_CONTROL_CHANNEL: DACChannel = DACChannel::ChannelC;
pub const TETHER_BIAS_SUPPLY_CONTROL_CHANNEL: DACChannel = DACChannel::ChannelD;
pub const HEATER_DIGIPOT_CHANNEL: DigipotChannel = DigipotChannel::Channel1;

} // verus!
