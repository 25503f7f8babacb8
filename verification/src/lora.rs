//! The vocabulary of a LoRa driver: how it is configured, what it sends, and how it fails.

use vstd::prelude::*;

verus! {

/// The frequency plan a device operates under.
#[derive(Clone, Copy, Debug, PartialEq, Eq, Structural)]
pub enum LoraRegion {
    EU868,
    US915,
    CN470,
    AU915,
    KR920,
    AS923,
    IN865,
    UNKNOWN,
}

/// The spreading factor of the modulation.
#[derive(Clone, Copy, Debug, PartialEq, Eq, Structural)]
pub enum SpreadingFactor {
    SF7,
    SF8,
    SF9,
    SF10,
    SF11,
    SF12,
}

impl SpreadingFactor {
    /// The number in the factor's name.
    pub open spec fn factor(self) -> int {
        match self {
            SpreadingFactor::SF7 => 7,
            SpreadingFactor::SF8 => 8,
            SpreadingFactor::SF9 => 9,
            SpreadingFactor::SF10 => 10,
            SpreadingFactor::SF11 => 11,
            SpreadingFactor::SF12 => 12,
        }
    }
}

/// Whether the network is asked to acknowledge an uplink.
#[derive(Clone, Copy, Debug, PartialEq, Eq, Structural)]
pub enum QoS {
    Unconfirmed,
    Confirmed,
}

/// How a device becomes part of a network.
#[derive(Clone, Copy, Debug, PartialEq, Eq, Structural)]
pub enum ConnectMode {
    OTAA,
    ABP,
}

/// The port of an uplink.
pub type Port = u8;

/// How an operation of a LoRa driver fails.
#[derive(Clone, Copy, Debug, PartialEq, Eq, Structural)]
pub enum LoraError {
    NotReady,
    AckTimeout,
    UnsupportedRegion,
    OtherError,
}

/// An extended unique identifier, most significant byte first.
#[derive(Clone, Copy, Debug, PartialEq, Eq)]
pub struct EUI {
    pub bytes: [u8; 8],
}

impl EUI {
    /// The identifier with its bytes in the opposite order.
    pub fn reverse(&self) -> (reversed: EUI)
        ensures
            reversed.bytes@ == self.bytes@.reverse(),
    {
        let b = &self.bytes;
        let reversed = EUI { bytes: [b[7], b[6], b[5], b[4], b[3], b[2], b[1], b[0]] };
        assert(reversed.bytes@ =~= self.bytes@.reverse());
        reversed
    }
}

/// An identifier reversed twice is the one it was.
pub proof fn law_reversing_twice(eui: EUI, once: EUI, twice: EUI)
    requires
        once.bytes@ == eui.bytes@.reverse(),
        twice.bytes@ == once.bytes@.reverse(),
    ensures
        twice.bytes@ == eui.bytes@,
{
    assert(twice.bytes@ =~= eui.bytes@);
}

/// The key shared between a device and its application.
#[derive(Clone, Copy, Debug, PartialEq, Eq)]
pub struct AppKey {
    pub bytes: [u8; 16],
}

/// What a driver is configured with. What is left out of `region` and `spreading_factor` has a
/// default; the identifiers and the key have none.
#[derive(Clone, Copy, Debug)]
pub struct LoraConfig {
    pub region: Option<LoraRegion>,
    pub spreading_factor: Option<SpreadingFactor>,
    pub device_eui: Option<EUI>,
    pub app_eui: Option<EUI>,
    pub app_key: Option<AppKey>,
}

impl LoraConfig {
    /// Whether the identifiers and the key are all there.
    pub open spec fn has_credentials(self) -> bool {
        &&& self.device_eui is Some
        &&& self.app_eui is Some
        &&& self.app_key is Some
    }

    /// The region, or the one taken when none is given.
    pub open spec fn effective_region(self) -> LoraRegion {
        match self.region {
            Some(region) => region,
            None => LoraRegion::EU868,
        }
    }

    /// The spreading factor, or the one taken when none is given.
    pub open spec fn effective_spreading_factor(self) -> SpreadingFactor {
        match self.spreading_factor {
            Some(spreading_factor) => spreading_factor,
            None => SpreadingFactor::SF7,
        }
    }
}

/// What a configuration gives is what counts: a region or spreading factor that is given is taken
/// as it is, whichever it is, and only where none is given does a default stand in. Credentials are
/// there exactly when none of the three is left out.
pub proof fn law_given_settings_are_taken(config: LoraConfig)
    ensures
        config.region matches Some(region) ==> config.effective_region() == region,
        config.region is None ==> config.effective_region() is EU868,
        config.spreading_factor matches Some(factor) ==> config.effective_spreading_factor()
            == factor,
        config.spreading_factor is None ==> config.effective_spreading_factor() is SF7,
        !config.has_credentials() <==> (config.device_eui is None || config.app_eui is None
            || config.app_key is None),
{
}

/// Each spreading factor has its own number, and the numbers run from seven for the shortest to
/// twelve for the longest, one apart.
pub proof fn law_factors_are_numbered(a: SpreadingFactor, b: SpreadingFactor)
    ensures
        7 <= a.factor() <= 12,
        a.factor() == b.factor() ==> a == b,
        a is SF7 <==> a.factor() == 7,
        a is SF8 <==> a.factor() == 8,
        a is SF9 <==> a.factor() == 9,
        a is SF10 <==> a.factor() == 10,
        a is SF11 <==> a.factor() == 11,
        a is SF12 <==> a.factor() == 12,
{
}

} // verus!
