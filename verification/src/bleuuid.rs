//! Short Bluetooth identifiers and their 128-bit form.

use vstd::prelude::*;

verus! {

/// The Bluetooth Base UUID, `00000000-0000-1000-8000-00805f9b34fb`: the
/// 128-bit identifier into which every assigned short identifier is placed.
pub const BLUETOOTH_BASE_UUID: u128 = 0x00000000_0000_1000_8000_00805f9b34fb;

/// The assigned 16-bit number of the characteristic that a run reads.
pub const LIGHT_CHARACTERISTIC: u16 = 0x2A5F;

/// The 128-bit identifier of the characteristic that a run reads,
/// `00002a5f-0000-1000-8000-00805f9b34fb`.
pub const LIGHT_CHARACTERISTIC_UUID: u128 = 0x00002a5f_0000_1000_8000_00805f9b34fb;

/// The 128-bit identifier that stands for the 16-bit `short`: the base
/// identifier with `short` written into bits 96 to 111.
pub open spec fn expanded(short: u16) -> u128 {
    (BLUETOOTH_BASE_UUID + short as int * 0x1_0000_0000_0000_0000_0000_0000) as u128
}

/// Widens a 16-bit assigned number to the full identifier.
pub fn uuid_from_u16(short: u16) -> (uuid: u128)
    ensures
        uuid == expanded(short),
        uuid == BLUETOOTH_BASE_UUID | ((short as u128) << 96),
{
    let wide: u128 = short as u128;
    let uuid: u128 = BLUETOOTH_BASE_UUID | (wide << 96);
    assert(wide < 0x1_0000 ==> (0x00000000_0000_1000_8000_00805f9b34fbu128 | (wide << 96))
        == 0x00000000_0000_1000_8000_00805f9b34fbu128 + wide * 0x1_0000_0000_0000_0000_0000_0000u128)
        by (bit_vector);
    uuid
}

} // verus!
