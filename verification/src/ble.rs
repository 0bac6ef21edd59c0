//! The advertising payload of the transmitter.
use vstd::prelude::*;
use arrayvec::ArrayVec;
use arrayvec::CapacityError;

verus! {

/// Largest number of bytes in an advertising payload.
pub const ADVERTISING_DATA_SIZE: usize = 27;

/// Largest number of connections.
pub const CONNECTIONS_MAX: usize = 1;

/// Largest number of L2CAP channels: signalling and attribute protocol.
pub const L2CAP_CHANNELS_MAX: usize = 2;

/// Size of L2CAP packets in bytes.
pub const L2CAP_MTU: usize = 255;

/// AD type of the flags field.
pub const AD_TYPE_FLAGS: u8 = 0x01;

/// AD type of the complete local name.
pub const AD_TYPE_COMPLETE_LOCAL_NAME: u8 = 0x09;

/// Flag: LE general discoverable mode.
pub const FLAG_LE_GENERAL_DISC_MODE: u8 = 0x02;

/// Flag: BR/EDR is not supported.
pub const FLAG_BR_EDR_NOT_SUPPORTED: u8 = 0x04;

/// Number of bytes that stand before the name in the payload: the flags
/// field and the header of the name field.
pub const ADVERTISING_HEADER_SIZE: usize = 5;

/// `ArrayVec` of arrayvec, a vector with a fixed capacity. Nothing is
/// assumed of what is inside; what it holds is named by `payload_bytes`.
#[verifier::external_type_specification]
#[verifier::external_body]
#[verifier::reject_recursive_types(T)]
pub struct ExArrayVec<T, const CAP: usize>(ArrayVec<T, CAP>);

/// `CapacityError` of arrayvec, the error of a vector that is too full.
/// Nothing is assumed of what is inside.
#[verifier::external_type_specification]
#[verifier::external_body]
#[verifier::reject_recursive_types(T)]
pub struct ExCapacityError<T>(CapacityError<T>);

/// The bytes an advertising payload holds, in order: the elements of the
/// `ArrayVec`, first one first.
pub uninterp spec fn payload_bytes(data: ArrayVec<u8, ADVERTISING_DATA_SIZE>) -> Seq<u8>;

/// `ArrayVec::new` of arrayvec: the new vector holds nothing.
#[verifier::external_body]
fn payload_new() -> (data: ArrayVec<u8, ADVERTISING_DATA_SIZE>)
    ensures
        payload_bytes(data) == Seq::<u8>::empty(),
{
    ArrayVec::new()
}

/// `ArrayVec::push` of arrayvec: the element goes to the end of a vector
/// that is not full. On a full vector the call panics, so it is left out.
#[verifier::external_body]
fn payload_push(data: &mut ArrayVec<u8, ADVERTISING_DATA_SIZE>, byte: u8)
    requires
        payload_bytes(*old(data)).len() < ADVERTISING_DATA_SIZE,
    ensures
        payload_bytes(*final(data)) == payload_bytes(*old(data)).push(byte),
{
    data.push(byte)
}

/// `ArrayVec::try_extend_from_slice` of arrayvec: where the slice fits
/// into what is left of the capacity, it is copied to the end of the
/// vector; otherwise the vector stays as it is and the call fails.
#[verifier::external_body]
fn payload_try_extend(data: &mut ArrayVec<u8, ADVERTISING_DATA_SIZE>, other: &[u8]) -> (outcome:
    Result<(), CapacityError>)
    ensures
        outcome is Ok <==> payload_bytes(*old(data)).len() + other@.len() <= ADVERTISING_DATA_SIZE,
        outcome is Ok ==> payload_bytes(*final(data)) == payload_bytes(*old(data)) + other@,
        outcome is Err ==> payload_bytes(*final(data)) == payload_bytes(*old(data)),
{
    data.try_extend_from_slice(other)
}

/// The advertising payload for a device name: the flags field (general
/// discoverable, BR/EDR not supported), then the complete local name.
pub open spec fn advertising_bytes(name: Seq<u8>) -> Seq<u8> {
    seq![
        2u8,
        AD_TYPE_FLAGS,
        FLAG_LE_GENERAL_DISC_MODE | FLAG_BR_EDR_NOT_SUPPORTED,
        (name.len() + 1) as u8,
        AD_TYPE_COMPLETE_LOCAL_NAME,
    ] + name
}

/// Builds the advertising payload for a device name.
///
/// The payload holds at most `ADVERTISING_DATA_SIZE` bytes, five of which
/// stand before the name: a name that does not fit is refused.
pub fn advertising_data(name: &[u8]) -> (data: Result<ArrayVec<u8, ADVERTISING_DATA_SIZE>, ()>)
    ensures
        data is Ok <==> name@.len() + ADVERTISING_HEADER_SIZE <= ADVERTISING_DATA_SIZE,
        data matches Ok(payload) ==> payload_bytes(payload) == advertising_bytes(name@),
{
    let mut advertising_data = payload_new();

    payload_push(&mut advertising_data, 2);
    payload_push(&mut advertising_data, AD_TYPE_FLAGS);
    payload_push(&mut advertising_data, FLAG_LE_GENERAL_DISC_MODE | FLAG_BR_EDR_NOT_SUPPORTED);

    let name_len = name.len();
    if name_len > 24 {
        return Err(());
    }
    payload_push(&mut advertising_data, name_len as u8 + 1);
    payload_push(&mut advertising_data, AD_TYPE_COMPLETE_LOCAL_NAME);
    match payload_try_extend(&mut advertising_data, name) {
        Ok(_) => {
            assert(payload_bytes(advertising_data) =~= advertising_bytes(name@));
            Ok(advertising_data)
        },
        Err(_) => Err(()),
    }
}

} // verus!
