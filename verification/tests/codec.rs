use token_contract::errors::ContractError;
use token_contract::keys::Pubkey;
use token_contract::state::{ContractState, MintPermission};

fn key(b: u8) -> Pubkey {
    Pubkey { bytes: vec![b; 32] }
}

#[test]
fn state_round_trips() {
    let state = ContractState { contract_owner: key(0xAB), last_token_id: 99 };
    let bytes = state.to_bytes();
    assert_eq!(bytes.len(), 40);
    let back = ContractState::try_from_slice(&bytes).unwrap();
    assert_eq!(back.contract_owner.bytes, vec![0xAB; 32]);
    assert_eq!(back.last_token_id, 99);
}

#[test]
fn state_layout_matches_reference_serializer() {
    let state = ContractState { contract_owner: key(0x17), last_token_id: 0x0102030405060708 };
    let reference = borsh::to_vec(&([0x17u8; 32], 0x0102030405060708u64)).unwrap();
    assert_eq!(state.to_bytes(), reference);
}

#[test]
fn state_wrong_length_is_rejected() {
    assert_eq!(
        ContractState::try_from_slice(&[0u8; 39]).unwrap_err(),
        ContractError::DeserializationFailed
    );
    assert_eq!(
        ContractState::try_from_slice(&[0u8; 41]).unwrap_err(),
        ContractError::DeserializationFailed
    );
}

#[test]
fn permission_round_trips() {
    let perm = MintPermission {
        user: key(0x44),
        game_id: "game1".to_string(),
        token_uri: "ipfs://x".to_string(),
    };
    let bytes = perm.to_bytes().unwrap();
    assert_eq!(bytes.len(), 32 + 4 + 5 + 4 + 8);
    let back = MintPermission::try_from_slice(&bytes).unwrap();
    assert_eq!(back.user.bytes, vec![0x44; 32]);
    assert_eq!(back.game_id, "game1");
    assert_eq!(back.token_uri, "ipfs://x");
}

#[test]
fn permission_layout_matches_reference_serializer() {
    let perm = MintPermission {
        user: key(0x45),
        game_id: "abc".to_string(),
        token_uri: "d".to_string(),
    };
    let reference =
        borsh::to_vec(&([0x45u8; 32], "abc".to_string(), "d".to_string())).unwrap();
    assert_eq!(perm.to_bytes().unwrap(), reference);
}

#[test]
fn permission_trailing_byte_is_rejected() {
    let perm = MintPermission {
        user: key(0x44),
        game_id: "g".to_string(),
        token_uri: String::new(),
    };
    let mut bytes = perm.to_bytes().unwrap();
    bytes.push(0);
    assert_eq!(
        MintPermission::try_from_slice(&bytes).unwrap_err(),
        ContractError::DeserializationFailed
    );
}

#[test]
fn permission_truncated_is_rejected() {
    let perm = MintPermission {
        user: key(0x44),
        game_id: "game".to_string(),
        token_uri: String::new(),
    };
    let bytes = perm.to_bytes().unwrap();
    assert_eq!(
        MintPermission::try_from_slice(&bytes[..bytes.len() - 1]).unwrap_err(),
        ContractError::DeserializationFailed
    );
}

#[test]
fn permission_invalid_utf8_is_rejected() {
    let perm = MintPermission {
        user: key(0x44),
        game_id: "gg".to_string(),
        token_uri: String::new(),
    };
    let mut bytes = perm.to_bytes().unwrap();
    // Corrupt one byte of the game id with a lone continuation byte.
    bytes[36] = 0xFF;
    assert_eq!(
        MintPermission::try_from_slice(&bytes).unwrap_err(),
        ContractError::DeserializationFailed
    );
}

#[test]
fn decoded_owner_reencodes_to_the_same_bytes() {
    // Decode a well-formed Initialize buffer, persist the owner in a fresh
    // state record, and find the same 32 bytes at the front, unchanged.
    let owner_bytes: Vec<u8> = (0u8..32).collect();
    let mut buf = vec![0u8];
    buf.extend_from_slice(&owner_bytes);
    match token_contract::instruction::ContractInstruction::unpack(&buf).unwrap() {
        token_contract::instruction::ContractInstruction::InitializeContract { owner } => {
            let state = ContractState { contract_owner: owner, last_token_id: 0 };
            let encoded = state.to_bytes();
            assert_eq!(&encoded[..32], &buf[1..33]);
        }
        _ => panic!("wrong variant"),
    }
}

#[test]
fn state_is_initialized() {
    let state = ContractState { contract_owner: key(1), last_token_id: 0 };
    assert!(state.is_initialized());
}
