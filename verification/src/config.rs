//! What a run is asked to do.

use crate::bleuuid::{uuid_from_u16, LIGHT_CHARACTERISTIC, LIGHT_CHARACTERISTIC_UUID};
use vstd::prelude::*;
use vstd::string::StringExecFns;

verus! {

/// Length of the scan window unless configured otherwise: two seconds.
pub const DEFAULT_SCAN_DURATION: u64 = 2000;

/// Number of reads unless configured otherwise.
pub const DEFAULT_READ_COUNT: u32 = 20;

/// Pause after each read unless configured otherwise: 200 milliseconds.
pub const DEFAULT_READ_INTERVAL: u64 = 200;

/// The options of a run. Times are in milliseconds.
#[derive(Clone, Debug, PartialEq, Eq)]
pub struct Config {
    /// How long advertisements are collected before names are examined.
    pub scan_duration: u64,
    /// How many reads a complete run performs.
    pub read_count: u32,
    /// How long the run pauses after each read.
    pub read_interval: u64,
    /// The text that the lower-cased advertised name must hold. It is taken
    /// as it stands: a target with an upper-case letter in it is not folded.
    pub target_name: String,
    /// The 128-bit identifier of the characteristic to read.
    pub target_uuid: u128,
}

/// A `Config` with its text as a sequence of characters.
pub struct ConfigView {
    pub scan_duration: u64,
    pub read_count: u32,
    pub read_interval: u64,
    pub target_name: Seq<char>,
    pub target_uuid: u128,
}

impl View for Config {
    type V = ConfigView;

    open spec fn view(&self) -> ConfigView {
        ConfigView {
            scan_duration: self.scan_duration,
            read_count: self.read_count,
            read_interval: self.read_interval,
            target_name: self.target_name@,
            target_uuid: self.target_uuid,
        }
    }
}

/// The options that hold where nothing else is asked for: a two-second scan
/// for a name that holds `choicemmed`, then twenty reads of characteristic
/// `0x2A5F`, 200 milliseconds apart.
pub open spec fn default_config() -> ConfigView {
    ConfigView {
        scan_duration: DEFAULT_SCAN_DURATION,
        read_count: DEFAULT_READ_COUNT,
        read_interval: DEFAULT_READ_INTERVAL,
        target_name: "choicemmed"@,
        target_uuid: LIGHT_CHARACTERISTIC_UUID,
    }
}

impl Default for Config {
    fn default() -> (config: Config)
        ensures
            config@ == default_config(),
    {
        Config {
            scan_duration: DEFAULT_SCAN_DURATION,
            read_count: DEFAULT_READ_COUNT,
            read_interval: DEFAULT_READ_INTERVAL,
            target_name: String::from_str("choicemmed"),
            target_uuid: uuid_from_u16(LIGHT_CHARACTERISTIC),
        }
    }
}

} // verus!
