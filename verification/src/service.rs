//! Recognising the ASHA audio-streaming service among advertised UUIDs.
//!
//! A Bluetooth UUID is held as its 128-bit value. Identifiers assigned by the
//! Bluetooth SIG have a 16-bit short form: the short value sits in bits 96 to
//! 111 of the Bluetooth base UUID.

use vstd::prelude::*;

verus! {

/// The 16-bit identifier of the ASHA audio-streaming service.
pub const ASHA_SERVICE_U16: u16 = 0xFDF0;

/// The Bluetooth base UUID, `00000000-0000-1000-8000-00805f9b34fb`.
pub const BLUETOOTH_BASE_UUID: u128 = 0x0000_0000_0000_1000_8000_0080_5f9b_34fb;

/// The weight of a short identifier inside a 128-bit UUID: two to the 96th.
pub const SHORT_ID_UNIT: u128 = 0x1_0000_0000_0000_0000_0000_0000;

/// The bits in which a UUID with a 16-bit short identifier agrees with the
/// base UUID: all but bits 96 to 111.
pub const SHORT_ID_MASK: u128 = 0xffff_0000_ffff_ffff_ffff_ffff_ffff_ffff;

/// The ASHA service UUID in full, `0000fdf0-0000-1000-8000-00805f9b34fb`.
pub const ASHA_SERVICE_UUID: u128 = 0x0000_fdf0_0000_1000_8000_0080_5f9b_34fb;

/// The full UUID that the short identifier `short` abbreviates.
pub open spec fn spec_uuid_from_u16(short: u16) -> u128 {
    (BLUETOOTH_BASE_UUID + short * SHORT_ID_UNIT) as u128
}

/// The short identifier of `uuid`: present exactly when the low 96 bits are
/// those of the base UUID and what lies above them fits in 16 bits.
pub open spec fn spec_uuid_as_u16(uuid: u128) -> Option<u16> {
    if uuid % SHORT_ID_UNIT == BLUETOOTH_BASE_UUID && uuid / SHORT_ID_UNIT <= u16::MAX {
        Some((uuid / SHORT_ID_UNIT) as u16)
    } else {
        None
    }
}

/// Whether some advertised UUID is the ASHA service in short form.
pub open spec fn advertises_asha(uuids: Seq<u128>) -> bool {
    exists|i: int|
        0 <= i < uuids.len() && spec_uuid_as_u16(#[trigger] uuids[i]) == Some(ASHA_SERVICE_U16)
}

/// Expands a 16-bit short identifier to the full UUID.
#[verifier::when_used_as_spec(spec_uuid_from_u16)]
pub fn uuid_from_u16(short: u16) -> (uuid: u128)
    ensures
        uuid == spec_uuid_from_u16(short),
{
    let high: u128 = short as u128;
    BLUETOOTH_BASE_UUID + high * SHORT_ID_UNIT
}

/// Reads the 16-bit short identifier of a UUID, if it has one.
#[verifier::when_used_as_spec(spec_uuid_as_u16)]
pub fn uuid_as_u16(uuid: u128) -> (short: Option<u16>)
    ensures
        short == spec_uuid_as_u16(uuid),
{
    let high: u128 = uuid / SHORT_ID_UNIT;
    if uuid % SHORT_ID_UNIT == BLUETOOTH_BASE_UUID && high <= 0xFFFF {
        Some(high as u16)
    } else {
        None
    }
}

/// The UUID handed to a profile connect: the ASHA service in full.
pub fn asha_profile() -> (uuid: u128)
    ensures
        uuid == ASHA_SERVICE_UUID,
        uuid == spec_uuid_from_u16(ASHA_SERVICE_U16),
{
    uuid_from_u16(ASHA_SERVICE_U16)
}

/// Decides whether a device advertises the ASHA service.
pub fn service_match(uuids: &Vec<u128>) -> (hit: bool)
    ensures
        hit == advertises_asha(uuids@),
{
    let mut i: usize = 0;
    while i < uuids.len()
        invariant
            i <= uuids.len(),
            forall|j: int| 0 <= j < i ==> spec_uuid_as_u16(#[trigger] uuids@[j]) != Some(ASHA_SERVICE_U16),
        decreases uuids.len() - i,
    {
        match uuid_as_u16(uuids[i]) {
            Some(short) => {
                if short == ASHA_SERVICE_U16 {
                    return true;
                }
            },
            None => {},
        }
        i += 1;
    }
    false
}

/// Expanding a short identifier and reading it back gives the identifier.
pub proof fn lemma_short_form_round_trip(short: u16)
    ensures
        spec_uuid_as_u16(spec_uuid_from_u16(short)) == Some(short),
{
    let uuid = spec_uuid_from_u16(short);
    assert(uuid == BLUETOOTH_BASE_UUID + short * SHORT_ID_UNIT);
    assert(uuid % SHORT_ID_UNIT == BLUETOOTH_BASE_UUID && uuid / SHORT_ID_UNIT == short) by {
        vstd::arithmetic::div_mod::lemma_fundamental_div_mod_converse(
            uuid as int,
            SHORT_ID_UNIT as int,
            short as int,
            BLUETOOTH_BASE_UUID as int,
        );
    }
}

/// A UUID has the short identifier `short` only if it is its expansion, so no
/// two UUIDs share a short identifier.
pub proof fn lemma_short_form_names_one_uuid(uuid: u128, short: u16)
    ensures
        spec_uuid_as_u16(uuid) == Some(short) <==> uuid == spec_uuid_from_u16(short),
{
    lemma_short_form_round_trip(short);
    if spec_uuid_as_u16(uuid) == Some(short) {
        vstd::arithmetic::div_mod::lemma_fundamental_div_mod(uuid as int, SHORT_ID_UNIT as int);
    }
}

/// In bits: a UUID has a short identifier exactly when it agrees with the
/// base UUID everywhere but in bits 96 to 111, and the identifier is what
/// stands in those bits.
pub proof fn lemma_short_form_in_bits(uuid: u128)
    ensures
        spec_uuid_as_u16(uuid) is Some <==> uuid & SHORT_ID_MASK == BLUETOOTH_BASE_UUID,
        spec_uuid_as_u16(uuid) matches Some(short) ==> short == uuid >> 96,
        forall|short: u16|
            spec_uuid_from_u16(short) == BLUETOOTH_BASE_UUID | ((short as u128) << 96),
{
    assert((uuid & 0xffff0000_ffff_ffff_ffff_ffffffffffff == 0x0000_0000_0000_1000_8000_0080_5f9b_34fb)
        <==> (uuid % 0x1_0000_0000_0000_0000_0000_0000 == 0x0000_0000_0000_1000_8000_0080_5f9b_34fb
        && uuid / 0x1_0000_0000_0000_0000_0000_0000 <= 0xffff)) by (bit_vector);
    assert(uuid / 0x1_0000_0000_0000_0000_0000_0000 == uuid >> 96) by (bit_vector);
    assert forall|short: u16|
        spec_uuid_from_u16(short) == BLUETOOTH_BASE_UUID | ((short as u128) << 96) by {
        let wide = short as u128;
        assert(wide <= 0xffff ==> 0x0000_0000_0000_1000_8000_0080_5f9b_34fb | (wide << 96)
            == 0x0000_0000_0000_1000_8000_0080_5f9b_34fb + wide
            * 0x1_0000_0000_0000_0000_0000_0000) by (bit_vector);
    }
}

/// A device matches exactly when the full ASHA service UUID is among those it
/// advertises.
pub proof fn lemma_match_is_membership(uuids: Seq<u128>)
    ensures
        advertises_asha(uuids) <==> uuids.contains(ASHA_SERVICE_UUID),
{
    assert(ASHA_SERVICE_UUID == spec_uuid_from_u16(ASHA_SERVICE_U16));
    if advertises_asha(uuids) {
        let i = choose|i: int|
            0 <= i < uuids.len() && spec_uuid_as_u16(#[trigger] uuids[i]) == Some(ASHA_SERVICE_U16);
        lemma_short_form_names_one_uuid(uuids[i], ASHA_SERVICE_U16);
        assert(uuids[i] == ASHA_SERVICE_UUID);
    }
    if uuids.contains(ASHA_SERVICE_UUID) {
        let i = choose|i: int| 0 <= i < uuids.len() && uuids[i] == ASHA_SERVICE_UUID;
        lemma_short_form_names_one_uuid(uuids[i], ASHA_SERVICE_U16);
    }
}

} // verus!
