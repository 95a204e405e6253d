//! Persisted records and their byte layout: a fixed 40-byte state record and a
//! variable-length permission record with length-prefixed strings. Both
//! deserializers demand that the buffer be consumed exactly, so a buffer holds
//! one well-formed record or none.

use vstd::prelude::*;
use vstd::bytes::{
    spec_u32_from_le_bytes, spec_u32_to_le_bytes, spec_u64_from_le_bytes, spec_u64_to_le_bytes,
    u32_from_le_bytes, u32_to_le_bytes, u64_from_le_bytes, u64_to_le_bytes,
};
use vstd::utf8::{decode_utf8, encode_utf8, valid_utf8};
use crate::errors::ContractError;
use crate::keys::Pubkey;
use crate::text::vec_to_string;
use crate::text::string_to_bytes;

verus! {

/// Byte length of a serialized [`ContractState`]: a 32-byte owner identifier
/// followed by an 8-byte little-endian counter.
pub const STATE_LEN: usize = 40;

/// The contract's persisted state: its administrator and the monotonically
/// increasing token counter.
#[derive(Debug)]
pub struct ContractState {
    pub contract_owner: Pubkey,
    pub last_token_id: u64,
}

/// The persisted byte layout of a state record.
pub open spec fn state_bytes(owner: Seq<u8>, last_token_id: u64) -> Seq<u8> {
    owner + spec_u64_to_le_bytes(last_token_id)
}

impl ContractState {
    pub open spec fn wf(&self) -> bool {
        self.contract_owner.wf()
    }

    /// Deserializes a state record. The buffer must be consumed exactly, so
    /// only a 40-byte buffer holds a well-formed record.
    pub fn try_from_slice(data: &[u8]) -> (r: Result<ContractState, ContractError>)
        ensures
            data@.len() == STATE_LEN ==> (r matches Ok(s) && s.wf()
                && s.contract_owner@ == data@.take(32)
                && s.last_token_id == spec_u64_from_le_bytes(data@.skip(32))),
            data@.len() != STATE_LEN ==> r == Err::<ContractState, ContractError>(
                ContractError::DeserializationFailed,
            ),
    {
        if data.len() != STATE_LEN {
            return Err(ContractError::DeserializationFailed);
        }
        let contract_owner = Pubkey::from_slice(data);
        let last_token_id = u64_from_le_bytes(vstd::slice::slice_subrange(data, 32, 40));
        Ok(ContractState { contract_owner, last_token_id })
    }

    /// A present state record is always considered initialized.
    pub fn is_initialized(&self) -> (r: bool)
        ensures
            r,
    {
        true
    }

    /// Serializes the record into its persisted layout.
    pub fn to_bytes(&self) -> (r: Vec<u8>)
        ensures
            r@ == state_bytes(self.contract_owner@, self.last_token_id),
    {
        let mut v = self.contract_owner.dup().bytes;
        let mut counter = u64_to_le_bytes(self.last_token_id);
        v.append(&mut counter);
        v
    }
}

/// A granted permission to mint: the authorized identifier, the key of the
/// game it applies to, and a metadata pointer.
#[derive(Debug)]
pub struct MintPermission {
    pub user: Pubkey,
    pub game_id: String,
    pub token_uri: String,
}

/// The mathematical content of a permission record.
pub struct PermissionView {
    pub user: Seq<u8>,
    pub game_id: Seq<char>,
    pub token_uri: Seq<char>,
}

impl View for MintPermission {
    type V = PermissionView;

    open spec fn view(&self) -> PermissionView {
        PermissionView { user: self.user@, game_id: self.game_id@, token_uri: self.token_uri@ }
    }
}

/// The byte layout of one length-prefixed string field: a 4-byte little-endian
/// byte count followed by the UTF-8 bytes.
pub open spec fn string_field_bytes(s: Seq<char>) -> Seq<u8> {
    spec_u32_to_le_bytes(encode_utf8(s).len() as u32) + encode_utf8(s)
}

/// Whether a string field's byte count fits its 4-byte length prefix.
pub open spec fn string_field_fits(s: Seq<char>) -> bool {
    encode_utf8(s).len() <= u32::MAX
}

/// The persisted byte layout of a permission record.
pub open spec fn permission_bytes(user: Seq<u8>, game_id: Seq<char>, token_uri: Seq<char>) -> Seq<
    u8,
> {
    user + string_field_bytes(game_id) + string_field_bytes(token_uri)
}

/// What deserializing a permission record returns on any buffer: the record is
/// a 32-byte identifier and two length-prefixed UTF-8 strings, and the buffer
/// must be consumed exactly.
pub open spec fn permission_decode(data: Seq<u8>) -> Result<PermissionView, ContractError> {
    if data.len() < 36 {
        Err(ContractError::DeserializationFailed)
    } else {
        let glen = spec_u32_from_le_bytes(data.subrange(32, 36)) as int;
        if data.len() < 40 + glen {
            Err(ContractError::DeserializationFailed)
        } else {
            let gbytes = data.subrange(36, 36 + glen);
            let ulen = spec_u32_from_le_bytes(data.subrange(36 + glen, 40 + glen)) as int;
            if data.len() != 40 + glen + ulen {
                Err(ContractError::DeserializationFailed)
            } else {
                let ubytes = data.subrange(40 + glen, 40 + glen + ulen);
                if valid_utf8(gbytes) && valid_utf8(ubytes) {
                    Ok(
                        PermissionView {
                            user: data.take(32),
                            game_id: decode_utf8(gbytes),
                            token_uri: decode_utf8(ubytes),
                        },
                    )
                } else {
                    Err(ContractError::DeserializationFailed)
                }
            }
        }
    }
}

/// The result of a fallible permission deserialization, as its model.
pub open spec fn permission_result_model(r: Result<MintPermission, ContractError>) -> Result<
    PermissionView,
    ContractError,
> {
    match r {
        Ok(p) => Ok(p@),
        Err(e) => Err(e),
    }
}

impl MintPermission {
    pub open spec fn wf(&self) -> bool {
        self.user.wf()
    }

    /// Deserializes a permission record, requiring exact consumption of the
    /// buffer.
    pub fn try_from_slice(data: &[u8]) -> (r: Result<MintPermission, ContractError>)
        ensures
            permission_result_model(r) == permission_decode(data@),
            r matches Ok(p) ==> p.wf(),
    {
        let n = data.len();
        if n < 36 {
            return Err(ContractError::DeserializationFailed);
        }
        let glen = u32_from_le_bytes(vstd::slice::slice_subrange(data, 32, 36)) as usize;
        if n - 36 < glen || n - 36 - glen < 4 {
            return Err(ContractError::DeserializationFailed);
        }
        let gbytes = vstd::slice::slice_subrange(data, 36, 36 + glen);
        let ulen = u32_from_le_bytes(
            vstd::slice::slice_subrange(data, 36 + glen, 40 + glen),
        ) as usize;
        if n - 40 - glen != ulen {
            return Err(ContractError::DeserializationFailed);
        }
        let ubytes = vstd::slice::slice_subrange(data, 40 + glen, n);
        let user = Pubkey::from_slice(data);
        let game_id = match vec_to_string(vstd::slice::slice_to_vec(gbytes)) {
            Some(s) => s,
            None => {
                return Err(ContractError::DeserializationFailed);
            },
        };
        let token_uri = match vec_to_string(vstd::slice::slice_to_vec(ubytes)) {
            Some(s) => s,
            None => {
                return Err(ContractError::DeserializationFailed);
            },
        };
        Ok(MintPermission { user, game_id, token_uri })
    }

    /// Serializes the record into its persisted layout. Fails only when a
    /// string field's byte count overflows its 4-byte length prefix.
    pub fn to_bytes(&self) -> (r: Result<Vec<u8>, ContractError>)
        ensures
            string_field_fits(self.game_id@) && string_field_fits(self.token_uri@) ==> (
            r matches Ok(v) && v@ == permission_bytes(self.user@, self.game_id@, self.token_uri@)),
            !(string_field_fits(self.game_id@) && string_field_fits(self.token_uri@)) ==> r
                == Err::<Vec<u8>, ContractError>(ContractError::SerializationFailed),
    {
        let gb = string_to_bytes(&self.game_id);
        let ub = string_to_bytes(&self.token_uri);
        if gb.len() > u32::MAX as usize || ub.len() > u32::MAX as usize {
            return Err(ContractError::SerializationFailed);
        }
        let mut v = self.user.dup().bytes;
        let mut glen_bytes = u32_to_le_bytes(gb.len() as u32);
        v.append(&mut glen_bytes);
        let mut gb_owned = gb;
        v.append(&mut gb_owned);
        let mut ulen_bytes = u32_to_le_bytes(ub.len() as u32);
        v.append(&mut ulen_bytes);
        let mut ub_owned = ub;
        v.append(&mut ub_owned);
        Ok(v)
    }
}

/// Law: a serialized state record deserializes to exactly the owner and
/// counter it was built from.
pub proof fn lemma_state_round_trip(owner: Seq<u8>, last_token_id: u64)
    requires
        owner.len() == 32,
    ensures
        state_bytes(owner, last_token_id).len() == STATE_LEN,
        state_bytes(owner, last_token_id).take(32) == owner,
        spec_u64_from_le_bytes(state_bytes(owner, last_token_id).skip(32)) == last_token_id,
{
    vstd::bytes::lemma_auto_spec_u64_to_from_le_bytes();
    let data = state_bytes(owner, last_token_id);
    assert(data.take(32) =~= owner);
    assert(data.skip(32) =~= spec_u64_to_le_bytes(last_token_id));
}

/// Law: a serialized permission record deserializes to exactly the record it
/// was built from — a stored permission is never reinterpreted as anything
/// else.
pub proof fn lemma_permission_round_trip(user: Seq<u8>, game_id: Seq<char>, token_uri: Seq<char>)
    requires
        user.len() == 32,
        string_field_fits(game_id),
        string_field_fits(token_uri),
    ensures
        permission_decode(permission_bytes(user, game_id, token_uri)) matches Ok(p) && p.user
            == user && p.game_id == game_id && p.token_uri == token_uri,
{
    broadcast use vstd::utf8::encode_utf8_valid_utf8, vstd::utf8::encode_utf8_decode_utf8;

    vstd::bytes::lemma_auto_spec_u32_to_from_le_bytes();
    let gb = encode_utf8(game_id);
    let ub = encode_utf8(token_uri);
    let glen = gb.len() as int;
    let ulen = ub.len() as int;
    let data = permission_bytes(user, game_id, token_uri);
    assert(data.len() == 40 + glen + ulen);
    assert(data.subrange(32, 36) =~= spec_u32_to_le_bytes(gb.len() as u32));
    assert(spec_u32_from_le_bytes(data.subrange(32, 36)) as int == glen);
    assert(data.subrange(36, 36 + glen) =~= gb);
    assert(data.subrange(36 + glen, 40 + glen) =~= spec_u32_to_le_bytes(ub.len() as u32));
    assert(spec_u32_from_le_bytes(data.subrange(36 + glen, 40 + glen)) as int == ulen);
    assert(data.subrange(40 + glen, 40 + glen + ulen) =~= ub);
    assert(data.take(32) =~= user);
}

} // verus!
