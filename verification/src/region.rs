//! Regions and data rates, as the LoRaWAN stack takes them.

use crate::lora::{LoraError, LoraRegion, SpreadingFactor};
use lorawan_device::region;
use vstd::prelude::*;

verus! {

/// The parameters of a region, as the stack keeps them.
#[verifier::external_type_specification]
#[verifier::external_body]
pub struct ExConfiguration(region::Configuration);

/// The regions that the driver runs the stack in.
#[derive(Clone, Copy, Debug, PartialEq, Eq, Structural)]
pub enum SupportedRegion {
    EU868,
    US915,
    CN470,
}

/// A data rate that the driver asks of the stack.
#[derive(Clone, Copy, Debug, PartialEq, Eq, Structural)]
pub enum DR {
    _0,
    _1,
    _2,
    _3,
    _4,
    _5,
}

impl DR {
    /// The number in the data rate's name.
    pub open spec fn index(self) -> int {
        match self {
            DR::_0 => 0,
            DR::_1 => 1,
            DR::_2 => 2,
            DR::_3 => 3,
            DR::_4 => 4,
            DR::_5 => 5,
        }
    }
}

/// What `lorawan_device::region::Configuration::new` returns for a region.
pub uninterp spec fn region_configuration(region: SupportedRegion) -> region::Configuration;

/// What `lorawan_device::region::Configuration::set_receive_delay1` makes of a configuration.
pub uninterp spec fn with_receive_delay1(
    configuration: region::Configuration,
    delay: u32,
) -> region::Configuration;

/// The delays in milliseconds, counted from the end of an uplink, at which the two receive
/// windows for data open under a configuration.
pub uninterp spec fn receive_delays(configuration: region::Configuration) -> (int, int);

/// Calls `lorawan_device::region::Configuration::new`. It is a function of the region alone. A new
/// configuration opens the receive windows for data after one and after two seconds. What else a
/// configuration holds (channels, power, the delays of a join) is not stated.
#[verifier::external_body]
fn new_configuration(region: SupportedRegion) -> (configuration: region::Configuration)
    ensures
        configuration == region_configuration(region),
        receive_delays(configuration) == (1000int, 2000int),
{
    region::Configuration::new(match region {
        SupportedRegion::EU868 => region::Region::EU868,
        SupportedRegion::US915 => region::Region::US915,
        SupportedRegion::CN470 => region::Region::CN470,
    })
}

/// Calls `lorawan_device::region::Configuration::set_receive_delay1`. What it leaves is a function
/// of what was there and of the delay. The first receive window opens after the delay, and the
/// second one second later; that sum has to fit.
#[verifier::external_body]
pub(crate) fn set_receive_delay1(configuration: &mut region::Configuration, delay: u32)
    requires
        delay + 1000 <= u32::MAX,
    ensures
        *final(configuration) == with_receive_delay1(*old(configuration), delay),
        receive_delays(*final(configuration)) == (delay as int, delay + 1000),
{
    configuration.set_receive_delay1(delay);
}

/// The region of the stack that a region of the driver stands for, if there is one.
pub open spec fn supported_region(region: LoraRegion) -> Option<SupportedRegion> {
    match region {
        LoraRegion::EU868 => Some(SupportedRegion::EU868),
        LoraRegion::US915 => Some(SupportedRegion::US915),
        LoraRegion::CN470 => Some(SupportedRegion::CN470),
        _ => None,
    }
}

/// The stack's configuration for a region; an error where the driver does not support the region.
pub fn to_region(region: LoraRegion) -> (configuration: Result<region::Configuration, LoraError>)
    ensures
        match supported_region(region) {
            Some(supported) => configuration matches Ok(c) && c == region_configuration(supported)
                && receive_delays(c) == (1000int, 2000int),
            None => configuration matches Err(e) && e == LoraError::UnsupportedRegion,
        },
{
    match region {
        LoraRegion::EU868 => Ok(new_configuration(SupportedRegion::EU868)),
        LoraRegion::US915 => Ok(new_configuration(SupportedRegion::US915)),
        LoraRegion::CN470 => Ok(new_configuration(SupportedRegion::CN470)),
        _ => Err(LoraError::UnsupportedRegion),
    }
}

/// The data rate at which a spreading factor is used: the slowest rate has the largest factor.
pub fn to_datarate(spreading_factor: SpreadingFactor) -> (rate: DR)
    ensures
        rate.index() == 12 - spreading_factor.factor(),
{
    match spreading_factor {
        SpreadingFactor::SF7 => DR::_5,
        SpreadingFactor::SF8 => DR::_4,
        SpreadingFactor::SF9 => DR::_3,
        SpreadingFactor::SF10 => DR::_2,
        SpreadingFactor::SF11 => DR::_1,
        SpreadingFactor::SF12 => DR::_0,
    }
}

/// A region is supported exactly when it is one of the three that the stack is run in, and then it
/// stands for the one of the same name: no two regions share one.
pub proof fn law_regions_keep_their_names(region: LoraRegion)
    ensures
        supported_region(region) == Some(SupportedRegion::EU868) <==> region is EU868,
        supported_region(region) == Some(SupportedRegion::US915) <==> region is US915,
        supported_region(region) == Some(SupportedRegion::CN470) <==> region is CN470,
        supported_region(region) is None <==> (region is AU915 || region is KR920
            || region is AS923 || region is IN865 || region is UNKNOWN),
{
}

/// Each data rate has its own number, the one in its name.
pub proof fn law_rates_are_numbered(a: DR, b: DR)
    ensures
        0 <= a.index() <= 5,
        a.index() == b.index() ==> a == b,
        a is _0 <==> a.index() == 0,
        a is _1 <==> a.index() == 1,
        a is _2 <==> a.index() == 2,
        a is _3 <==> a.index() == 3,
        a is _4 <==> a.index() == 4,
        a is _5 <==> a.index() == 5,
{
}

} // verus!
