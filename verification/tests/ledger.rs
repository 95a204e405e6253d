use token_contract::errors::ContractError;
use token_contract::keys::Pubkey;
use token_contract::ledger::{build_ledger_instruction, LedgerCall};

fn key(b: u8) -> Pubkey {
    Pubkey { bytes: vec![b; 32] }
}

fn token_program_key() -> Pubkey {
    Pubkey { bytes: spl_token::id().to_bytes().to_vec() }
}

#[test]
fn burn_instruction_carries_the_quantity() {
    let call = LedgerCall::Burn { account: key(0x10), mint: key(0x30), authority: key(0x10), amount: 5 };
    let ix = build_ledger_instruction(&token_program_key(), &call).unwrap();
    assert_eq!(ix.program_id, spl_token::id());
    // Token-ledger wire format: tag 8 is a burn, followed by the amount.
    assert_eq!(ix.data[0], 8);
    assert_eq!(&ix.data[1..9], &5u64.to_le_bytes());
    assert_eq!(ix.accounts[0].pubkey.to_bytes(), [0x10; 32]);
    assert_eq!(ix.accounts[1].pubkey.to_bytes(), [0x30; 32]);
    assert_eq!(ix.accounts[2].pubkey.to_bytes(), [0x10; 32]);
}

#[test]
fn mint_instruction_targets_mint_receiver_authority() {
    let call = LedgerCall::MintTo { mint: key(0x60), account: key(0x61), authority: key(0xC0), amount: 1 };
    let ix = build_ledger_instruction(&token_program_key(), &call).unwrap();
    assert_eq!(ix.data[0], 7);
    assert_eq!(&ix.data[1..9], &1u64.to_le_bytes());
    assert_eq!(ix.accounts[0].pubkey.to_bytes(), [0x60; 32]);
    assert_eq!(ix.accounts[1].pubkey.to_bytes(), [0x61; 32]);
    assert_eq!(ix.accounts[2].pubkey.to_bytes(), [0xC0; 32]);
}

#[test]
fn transfer_instruction_moves_source_to_destination() {
    let call = LedgerCall::Transfer {
        source: key(0x10),
        destination: key(0x20),
        authority: key(0x10),
        amount: 1,
    };
    let ix = build_ledger_instruction(&token_program_key(), &call).unwrap();
    assert_eq!(ix.data[0], 3);
    assert_eq!(&ix.data[1..9], &1u64.to_le_bytes());
    assert_eq!(ix.accounts[0].pubkey.to_bytes(), [0x10; 32]);
    assert_eq!(ix.accounts[1].pubkey.to_bytes(), [0x20; 32]);
}

#[test]
fn wrong_target_program_is_refused() {
    let call = LedgerCall::Burn { account: key(0x10), mint: key(0x30), authority: key(0x10), amount: 5 };
    assert_eq!(
        build_ledger_instruction(&key(9), &call).unwrap_err(),
        ContractError::IncorrectProgramId
    );
}
