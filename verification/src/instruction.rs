//! The instruction wire format: a leading variant tag, fixed-width fields
//! consumed left to right, and a final string field that takes every remaining
//! byte of the buffer.

use vstd::prelude::*;
use vstd::bytes::{spec_u64_from_le_bytes, u64_from_le_bytes};
use vstd::utf8::{decode_utf8, valid_utf8};
use crate::errors::{ContractError, CustomError};
use crate::keys::Pubkey;
use crate::state::state_bytes;
use crate::text::vec_to_string;

verus! {

/// A decoded instruction: one variant per leading tag byte.
#[derive(Debug)]
pub enum ContractInstruction {
    InitializeContract { owner: Pubkey },
    GrantMint { user: Pubkey, game_id: String, token_uri: String },
    Mint { receiver: Pubkey, game_id: String },
    Transfer { token_id: u64, owner: Pubkey, receiver: Pubkey },
    Burn { token_id: u64 },
}

/// The mathematical content of a decoded instruction.
pub enum InstructionView {
    InitializeContract { owner: Seq<u8> },
    GrantMint { user: Seq<u8>, game_id: Seq<char>, token_uri: Seq<char> },
    Mint { receiver: Seq<u8>, game_id: Seq<char> },
    Transfer { token_id: u64, owner: Seq<u8>, receiver: Seq<u8> },
    Burn { token_id: u64 },
}

impl View for ContractInstruction {
    type V = InstructionView;

    open spec fn view(&self) -> InstructionView {
        match self {
            ContractInstruction::InitializeContract { owner } => {
                InstructionView::InitializeContract { owner: owner@ }
            },
            ContractInstruction::GrantMint { user, game_id, token_uri } => {
                InstructionView::GrantMint {
                    user: user@,
                    game_id: game_id@,
                    token_uri: token_uri@,
                }
            },
            ContractInstruction::Mint { receiver, game_id } => {
                InstructionView::Mint { receiver: receiver@, game_id: game_id@ }
            },
            ContractInstruction::Transfer { token_id, owner, receiver } => {
                InstructionView::Transfer {
                    token_id: *token_id,
                    owner: owner@,
                    receiver: receiver@,
                }
            },
            ContractInstruction::Burn { token_id } => {
                InstructionView::Burn { token_id: *token_id }
            },
        }
    }
}

impl ContractInstruction {
    pub open spec fn wf(&self) -> bool {
        match self {
            ContractInstruction::InitializeContract { owner } => owner.wf(),
            ContractInstruction::GrantMint { user, .. } => user.wf(),
            ContractInstruction::Mint { receiver, .. } => receiver.wf(),
            ContractInstruction::Transfer { owner, receiver, .. } => owner.wf() && receiver.wf(),
            ContractInstruction::Burn { .. } => true,
        }
    }
}

/// The decode error: every malformed buffer is rejected the same way.
pub open spec fn rejected() -> Result<InstructionView, ContractError> {
    Err(ContractError::Custom(CustomError::InvalidInstruction))
}

/// What decoding returns on any buffer. The first byte selects the variant;
/// fixed-width fields are consumed left to right; a string field consumes all
/// remaining bytes and must be valid UTF-8, so only the last string field of a
/// variant can ever be non-empty.
pub open spec fn decode_model(input: Seq<u8>) -> Result<InstructionView, ContractError> {
    if input.len() == 0 {
        rejected()
    } else {
        let rest = input.skip(1);
        if input[0] == 0 {
            if rest.len() >= 32 {
                Ok(InstructionView::InitializeContract { owner: rest.take(32) })
            } else {
                rejected()
            }
        } else if input[0] == 1 {
            if rest.len() < 32 {
                rejected()
            } else if valid_utf8(rest.skip(32)) {
                Ok(
                    InstructionView::GrantMint {
                        user: rest.take(32),
                        game_id: decode_utf8(rest.skip(32)),
                        token_uri: Seq::empty(),
                    },
                )
            } else {
                rejected()
            }
        } else if input[0] == 2 {
            if rest.len() < 32 {
                rejected()
            } else if valid_utf8(rest.skip(32)) {
                Ok(
                    InstructionView::Mint {
                        receiver: rest.take(32),
                        game_id: decode_utf8(rest.skip(32)),
                    },
                )
            } else {
                rejected()
            }
        } else if input[0] == 3 {
            if rest.len() >= 72 {
                Ok(
                    InstructionView::Transfer {
                        token_id: spec_u64_from_le_bytes(rest.take(8)),
                        owner: rest.subrange(8, 40),
                        receiver: rest.subrange(40, 72),
                    },
                )
            } else {
                rejected()
            }
        } else if input[0] == 4 {
            if rest.len() >= 8 {
                Ok(InstructionView::Burn { token_id: spec_u64_from_le_bytes(rest.take(8)) })
            } else {
                rejected()
            }
        } else {
            rejected()
        }
    }
}

/// The result of a fallible decode, as its model.
pub open spec fn instruction_result_model(r: Result<ContractInstruction, ContractError>) -> Result<
    InstructionView,
    ContractError,
> {
    match r {
        Ok(i) => Ok(i@),
        Err(e) => Err(e),
    }
}

impl ContractInstruction {
    /// Decodes an instruction buffer, exactly as [`decode_model`] says.
    pub fn unpack(input: &[u8]) -> (r: Result<ContractInstruction, ContractError>)
        ensures
            instruction_result_model(r) == decode_model(input@),
            r matches Ok(i) ==> i.wf(),
    {
        if input.len() == 0 {
            return Err(ContractError::Custom(CustomError::InvalidInstruction));
        }
        let variant = *vstd::slice::slice_index_get(input, 0);
        let rest = vstd::slice::slice_subrange(input, 1, input.len());
        match variant {
            0 => {
                let (owner, _) = Self::unpack_pubkey(rest)?;
                Ok(ContractInstruction::InitializeContract { owner })
            },
            1 => {
                let (user, rest1) = Self::unpack_pubkey(rest)?;
                let (game_id, rest2) = Self::unpack_string(rest1)?;
                let (token_uri, _) = Self::unpack_string(rest2)?;
                proof {
                    assert(decode_utf8(Seq::<u8>::empty()) =~= Seq::<char>::empty());
                }
                Ok(ContractInstruction::GrantMint { user, game_id, token_uri })
            },
            2 => {
                let (receiver, rest1) = Self::unpack_pubkey(rest)?;
                let (game_id, _) = Self::unpack_string(rest1)?;
                Ok(ContractInstruction::Mint { receiver, game_id })
            },
            3 => {
                let (token_id, rest1) = Self::unpack_u64(rest)?;
                let (owner, rest2) = Self::unpack_pubkey(rest1)?;
                let (receiver, _) = Self::unpack_pubkey(rest2)?;
                proof {
                    assert(owner@ =~= rest@.subrange(8, 40));
                    assert(receiver@ =~= rest@.subrange(40, 72));
                }
                Ok(ContractInstruction::Transfer { token_id, owner, receiver })
            },
            4 => {
                let (token_id, _) = Self::unpack_u64(rest)?;
                Ok(ContractInstruction::Burn { token_id })
            },
            _ => Err(ContractError::Custom(CustomError::InvalidInstruction)),
        }
    }

    /// Consumes a 32-byte identifier from the front of the buffer.
    fn unpack_pubkey(input: &[u8]) -> (r: Result<(Pubkey, &[u8]), ContractError>)
        ensures
            input@.len() >= 32 ==> (r matches Ok(p) && p.0.wf() && p.0@ == input@.take(32)
                && p.1@ == input@.skip(32)),
            input@.len() < 32 ==> (r matches Err(e) && e == ContractError::Custom(
                CustomError::InvalidInstruction,
            )),
    {
        if input.len() < 32 {
            return Err(ContractError::Custom(CustomError::InvalidInstruction));
        }
        let pubkey = Pubkey::from_slice(input);
        let rest = vstd::slice::slice_subrange(input, 32, input.len());
        Ok((pubkey, rest))
    }

    /// Consumes an 8-byte little-endian unsigned integer from the front of the
    /// buffer.
    fn unpack_u64(input: &[u8]) -> (r: Result<(u64, &[u8]), ContractError>)
        ensures
            input@.len() >= 8 ==> (r matches Ok(p) && p.0 == spec_u64_from_le_bytes(
                input@.take(8),
            ) && p.1@ == input@.skip(8)),
            input@.len() < 8 ==> (r matches Err(e) && e == ContractError::Custom(
                CustomError::InvalidInstruction,
            )),
    {
        if input.len() < 8 {
            return Err(ContractError::Custom(CustomError::InvalidInstruction));
        }
        let value = u64_from_le_bytes(vstd::slice::slice_subrange(input, 0, 8));
        let rest = vstd::slice::slice_subrange(input, 8, input.len());
        Ok((value, rest))
    }

    /// Consumes all remaining bytes as one UTF-8 string.
    fn unpack_string(input: &[u8]) -> (r: Result<(String, &[u8]), ContractError>)
        ensures
            valid_utf8(input@) ==> (r matches Ok(p) && p.0@ == decode_utf8(input@) && p.1@
                =~= Seq::<u8>::empty()),
            !valid_utf8(input@) ==> (r matches Err(e) && e == ContractError::Custom(
                CustomError::InvalidInstruction,
            )),
    {
        match vec_to_string(vstd::slice::slice_to_vec(input)) {
            Some(s) => {
                let rest = vstd::slice::slice_subrange(input, input.len(), input.len());
                Ok((s, rest))
            },
            None => Err(ContractError::Custom(CustomError::InvalidInstruction)),
        }
    }
}

/// Law: decoding a well-formed Initialize buffer and re-encoding the decoded
/// owner as the leading field of a persisted state record returns the same 32
/// bytes unchanged, whatever counter is stored beside it.
pub proof fn lemma_initialize_owner_round_trip(input: Seq<u8>, last_token_id: u64)
    requires
        input.len() >= 33,
        input[0] == 0,
    ensures
        decode_model(input) matches Ok(i) && i matches InstructionView::InitializeContract {
            owner,
        } && state_bytes(owner, last_token_id).take(32) == input.subrange(1, 33),
{
    let owner = input.skip(1).take(32);
    assert(decode_model(input) == Ok::<InstructionView, ContractError>(
        InstructionView::InitializeContract { owner },
    ));
    assert(state_bytes(owner, last_token_id).take(32) =~= owner);
    assert(owner =~= input.subrange(1, 33));
}

/// Law: a buffer whose Initialize or GrantMint payload is cut short of its
/// 32-byte identifier is always rejected as an invalid instruction.
pub proof fn lemma_short_buffer_rejected(input: Seq<u8>)
    requires
        1 <= input.len() < 33,
        input[0] == 0 || input[0] == 1,
    ensures
        decode_model(input) == rejected(),
{
}

/// Law: a buffer whose first byte is not one of the five variant tags is
/// always rejected as an invalid instruction, as is the empty buffer.
pub proof fn lemma_unknown_tag_rejected(input: Seq<u8>)
    requires
        input.len() == 0 || input[0] > 4,
    ensures
        decode_model(input) == rejected(),
{
}

} // verus!
