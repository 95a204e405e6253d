use vstd::prelude::*;
use vstd::bytes::spec_u64_from_le_bytes;
use crate::keys::Pubkey;

verus! {

/// Byte length of serialized rent parameters: a fixed-width little-endian
/// encoding of the byte-per-year rate (8 bytes), the exemption threshold
/// (8 bytes) and the burn percentage (1 byte); trailing bytes are allowed.
pub const RENT_PARAMS_LEN: usize = 17;

/// Whether an identifier is the rent sysvar's fixed identifier.
pub uninterp spec fn rent_id_check(key: Seq<u8>) -> bool;

/// Relies on `solana_program::sysvar::rent::check_id`: it compares the given
/// identifier against the rent sysvar's fixed identifier, a function of the
/// argument alone.
#[verifier::external_body]
pub(crate) fn is_rent_sysvar(key: &Pubkey) -> (r: bool)
    requires
        key.wf(),
    ensures
        r == rent_id_check(key@),
{
    let k = solana_program::pubkey::Pubkey::new_from_array(
        key.bytes.as_slice().try_into().unwrap(),
    );
    solana_program::sysvar::rent::check_id(&k)
}

/// The byte-per-year rate held in serialized rent parameters: their leading
/// 8-byte little-endian integer.
pub open spec fn rent_byte_year_rate(rent_data: Seq<u8>) -> u64 {
    spec_u64_from_le_bytes(rent_data.take(8))
}

/// Whether the host's rent arithmetic — a 128-byte storage overhead added to
/// the data size, the sum multiplied by the byte-per-year rate — stays within
/// `u64` for the given rate and data size.
pub open spec fn rent_math_fits(rate: u64, data_len: int) -> bool {
    &&& 128 + data_len <= u64::MAX
    &&& (128 + data_len) * rate <= u64::MAX
}

/// What the rent-exemption check yields for given sysvar bytes, balance and
/// data size: `None` when the bytes do not deserialize to rent parameters,
/// otherwise whether the balance meets the exemption threshold.
pub uninterp spec fn rent_exemption(rent_data: Seq<u8>, lamports: u64, data_len: int) -> Option<
    bool,
>;

/// Relies on `bincode::deserialize::<Rent>` and `Rent::is_exempt`, composed
/// exactly as `Sysvar::from_account_info` composes them. Both are functions of
/// their arguments alone. The decode is fixed-width: it succeeds exactly when
/// the buffer holds at least [`RENT_PARAMS_LEN`] bytes, and reads the rate
/// from the leading 8. The exemption outcome involves floating point, so it
/// is named rather than restated. `Rent::minimum_balance` multiplies the
/// overhead-padded data size by the byte-per-year rate in unchecked `u64`
/// arithmetic, so inputs on which that would overflow — and panic — are
/// excluded here; a caller tests the rate with the same leading-bytes read.
#[verifier::external_body]
pub(crate) fn rent_exempt_balance(rent_data: &Vec<u8>, lamports: u64, data_len: usize) -> (r:
    Option<bool>)
    requires
        rent_data@.len() >= RENT_PARAMS_LEN ==> rent_math_fits(
            rent_byte_year_rate(rent_data@),
            data_len as int,
        ),
    ensures
        r is Some <==> rent_data@.len() >= RENT_PARAMS_LEN,
        r == rent_exemption(rent_data@, lamports, data_len as int),
{
    match bincode::deserialize::<solana_program::rent::Rent>(rent_data.as_slice()) {
        Ok(rent) => Some(rent.is_exempt(lamports, data_len)),
        Err(_) => None,
    }
}

} // verus!
