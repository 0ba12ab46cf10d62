//! Capability identifiers: the 128-bit UUIDs of the services and
//! characteristics the protocol relies on.
//!
//! Sixteen-bit Bluetooth SIG identifiers stand in bits 96..112 of the
//! Bluetooth base UUID `00000000-0000-1000-8000-00805f9b34fb`; the
//! constants below are written out in that expanded form.

use vstd::prelude::*;

verus! {

/// Battery service (16-bit id 0x180f).
pub const BATTERY_SERVICE: u128 = 0x0000180f_0000_1000_8000_00805f9b34fb;

/// Battery level characteristic (16-bit id 0x2a19).
pub const BATTERY_LEVEL: u128 = 0x00002a19_0000_1000_8000_00805f9b34fb;

/// Device information service (16-bit id 0x180a).
pub const DEVICE_INFORMATION_SERVICE: u128 = 0x0000180a_0000_1000_8000_00805f9b34fb;

/// Serial number string characteristic (16-bit id 0x2a25).
pub const SERIAL_NUMBER: u128 = 0x00002a25_0000_1000_8000_00805f9b34fb;

/// Software revision string characteristic (16-bit id 0x2a28).
pub const SOFTWARE_REVISION: u128 = 0x00002a28_0000_1000_8000_00805f9b34fb;

/// Manufacturer name string characteristic (16-bit id 0x2a29).
pub const MANUFACTURER_NAME: u128 = 0x00002a29_0000_1000_8000_00805f9b34fb;

/// Vendor transfer service (16-bit id 0xfeea).
pub const TRANSFER_SERVICE: u128 = 0x0000feea_0000_1000_8000_00805f9b34fb;

/// Command-write characteristic: prep, acknowledgment and face-select
/// frames go here (16-bit id 0xfee2).
pub const COMMAND_WRITE: u128 = 0x0000fee2_0000_1000_8000_00805f9b34fb;

/// Data-write characteristic: payload chunks go here (16-bit id 0xfee6).
pub const DATA_WRITE: u128 = 0x0000fee6_0000_1000_8000_00805f9b34fb;

/// Notify characteristic: the device requests chunks and reports
/// completion here (16-bit id 0xfee3).
pub const NOTIFY_CHARACTERISTIC: u128 = 0x0000fee3_0000_1000_8000_00805f9b34fb;

/// The services a compatible peripheral must advertise.
pub open spec fn spec_required_services() -> Seq<u128> {
    seq![DEVICE_INFORMATION_SERVICE, TRANSFER_SERVICE, BATTERY_SERVICE]
}

/// The characteristics a compatible peripheral must advertise.
pub open spec fn spec_required_characteristics() -> Seq<u128> {
    seq![
        SOFTWARE_REVISION,
        SERIAL_NUMBER,
        MANUFACTURER_NAME,
        BATTERY_LEVEL,
        NOTIFY_CHARACTERISTIC,
        COMMAND_WRITE,
        DATA_WRITE,
    ]
}

/// The required-services set as a vector, for the qualifier's checks.
pub fn required_services() -> (r: Vec<u128>)
    ensures
        r@ == spec_required_services(),
{
    let mut r: Vec<u128> = Vec::new();
    r.push(DEVICE_INFORMATION_SERVICE);
    r.push(TRANSFER_SERVICE);
    r.push(BATTERY_SERVICE);
    proof {
        assert(r@ =~= spec_required_services());
    }
    r
}

/// The required-characteristics set as a vector, for the qualifier's checks.
pub fn required_characteristics() -> (r: Vec<u128>)
    ensures
        r@ == spec_required_characteristics(),
{
    let mut r: Vec<u128> = Vec::new();
    r.push(SOFTWARE_REVISION);
    r.push(SERIAL_NUMBER);
    r.push(MANUFACTURER_NAME);
    r.push(BATTERY_LEVEL);
    r.push(NOTIFY_CHARACTERISTIC);
    r.push(COMMAND_WRITE);
    r.push(DATA_WRITE);
    proof {
        assert(r@ =~= spec_required_characteristics());
    }
    r
}

} // verus!
