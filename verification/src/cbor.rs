use vstd::prelude::*;

use charms_sdk::data::Data;

verus! {

/// The `u64` that the charm data encoded in the CBOR bytes `data` holds, as
/// `charms_data::Data::value::<u64>` reads it, if it holds one.
pub uninterp spec fn cbor_u64(data: Seq<u8>) -> Option<u64>;

/// The `Vec<u8>` that the charm data encoded in the CBOR bytes `data` holds,
/// as `charms_data::Data::value::<Vec<u8>>` reads it (an array of integers
/// that each fit in a byte), if it holds one.
pub uninterp spec fn cbor_byte_vec(data: Seq<u8>) -> Option<Seq<u8>>;

/// Reads CBOR bytes as charm data with `charms_data::Data::try_from_bytes`,
/// then as a `u64` with `Data::value::<u64>`; bytes that are no charm data
/// give `None`. Trusted: the result is what `cbor_u64` names for the bytes.
#[verifier::external_body]
pub(crate) fn decode_u64(data: &[u8]) -> (value: Option<u64>)
    ensures
        value == cbor_u64(data@),
{
    match Data::try_from_bytes(data) {
        Ok(d) => d.value::<u64>().ok(),
        Err(_) => None,
    }
}

/// Reads CBOR bytes as charm data with `charms_data::Data::try_from_bytes`,
/// then as a `Vec<u8>` with `Data::value::<Vec<u8>>`; bytes that are no charm
/// data give `None`. Trusted: the result is what `cbor_byte_vec` names for
/// the bytes.
#[verifier::external_body]
pub(crate) fn decode_byte_vec(data: &[u8]) -> (value: Option<Vec<u8>>)
    ensures
        match value {
            Some(v) => cbor_byte_vec(data@) == Some(v@),
            None => cbor_byte_vec(data@) is None,
        },
{
    match Data::try_from_bytes(data) {
        Ok(d) => d.value::<Vec<u8>>().ok(),
        Err(_) => None,
    }
}

} // verus!
