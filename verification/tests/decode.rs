use token_contract::errors::{ContractError, CustomError};
use token_contract::instruction::ContractInstruction;

fn invalid() -> ContractError {
    ContractError::Custom(CustomError::InvalidInstruction)
}

#[test]
fn empty_buffer_is_rejected() {
    assert_eq!(ContractInstruction::unpack(&[]).unwrap_err(), invalid());
}

#[test]
fn unknown_tags_are_rejected() {
    for tag in [5u8, 6, 17, 128, 255] {
        let mut buf = vec![tag];
        buf.extend_from_slice(&[0u8; 72]);
        assert_eq!(ContractInstruction::unpack(&buf).unwrap_err(), invalid());
    }
}

#[test]
fn initialize_decodes_owner() {
    let mut buf = vec![0u8];
    buf.extend_from_slice(&[0xAA; 32]);
    match ContractInstruction::unpack(&buf).unwrap() {
        ContractInstruction::InitializeContract { owner } => {
            assert_eq!(owner.bytes, vec![0xAA; 32]);
        }
        _ => panic!("wrong variant"),
    }
}

#[test]
fn initialize_short_buffer_is_rejected() {
    // One tag byte plus only 31 identifier bytes: fewer than 33 in all.
    let mut buf = vec![0u8];
    buf.extend_from_slice(&[0xAA; 31]);
    assert_eq!(ContractInstruction::unpack(&buf).unwrap_err(), invalid());
}

#[test]
fn grant_short_buffer_is_rejected() {
    let mut buf = vec![1u8];
    buf.extend_from_slice(&[0xBB; 20]);
    assert_eq!(ContractInstruction::unpack(&buf).unwrap_err(), invalid());
}

#[test]
fn grant_decodes_user_and_game_and_empty_uri() {
    let mut buf = vec![1u8];
    buf.extend_from_slice(&[0xBB; 32]);
    buf.extend_from_slice(b"game1");
    match ContractInstruction::unpack(&buf).unwrap() {
        ContractInstruction::GrantMint { user, game_id, token_uri } => {
            assert_eq!(user.bytes, vec![0xBB; 32]);
            assert_eq!(game_id, "game1");
            // The trailing string field can never be non-empty: the first
            // string consumes every remaining byte.
            assert_eq!(token_uri, "");
        }
        _ => panic!("wrong variant"),
    }
}

#[test]
fn grant_invalid_utf8_is_rejected() {
    let mut buf = vec![1u8];
    buf.extend_from_slice(&[0xBB; 32]);
    buf.push(0xFF);
    assert_eq!(ContractInstruction::unpack(&buf).unwrap_err(), invalid());
}

#[test]
fn mint_decodes_receiver_and_game() {
    let mut buf = vec![2u8];
    buf.extend_from_slice(&[0xCC; 32]);
    buf.extend_from_slice(b"g");
    match ContractInstruction::unpack(&buf).unwrap() {
        ContractInstruction::Mint { receiver, game_id } => {
            assert_eq!(receiver.bytes, vec![0xCC; 32]);
            assert_eq!(game_id, "g");
        }
        _ => panic!("wrong variant"),
    }
}

#[test]
fn transfer_decodes_all_fields() {
    let mut buf = vec![3u8];
    buf.extend_from_slice(&7u64.to_le_bytes());
    buf.extend_from_slice(&[0x11; 32]);
    buf.extend_from_slice(&[0x22; 32]);
    match ContractInstruction::unpack(&buf).unwrap() {
        ContractInstruction::Transfer { token_id, owner, receiver } => {
            assert_eq!(token_id, 7);
            assert_eq!(owner.bytes, vec![0x11; 32]);
            assert_eq!(receiver.bytes, vec![0x22; 32]);
        }
        _ => panic!("wrong variant"),
    }
}

#[test]
fn transfer_short_buffer_is_rejected() {
    let mut buf = vec![3u8];
    buf.extend_from_slice(&7u64.to_le_bytes());
    buf.extend_from_slice(&[0x11; 32]);
    buf.extend_from_slice(&[0x22; 31]);
    assert_eq!(ContractInstruction::unpack(&buf).unwrap_err(), invalid());
}

#[test]
fn burn_decodes_token_id() {
    let mut buf = vec![4u8];
    buf.extend_from_slice(&5u64.to_le_bytes());
    match ContractInstruction::unpack(&buf).unwrap() {
        ContractInstruction::Burn { token_id } => assert_eq!(token_id, 5),
        _ => panic!("wrong variant"),
    }
}

#[test]
fn burn_short_buffer_is_rejected() {
    let buf = vec![4u8, 1, 2, 3];
    assert_eq!(ContractInstruction::unpack(&buf).unwrap_err(), invalid());
}

#[test]
fn trailing_bytes_are_ignored_for_fixed_variants() {
    let mut buf = vec![4u8];
    buf.extend_from_slice(&5u64.to_le_bytes());
    buf.extend_from_slice(&[9u8; 11]);
    match ContractInstruction::unpack(&buf).unwrap() {
        ContractInstruction::Burn { token_id } => assert_eq!(token_id, 5),
        _ => panic!("wrong variant"),
    }
}
