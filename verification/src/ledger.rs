use vstd::prelude::*;
use crate::errors::ContractError;
use crate::keys::Pubkey;

verus! {

/// Declares the host runtime's instruction type so that signatures may carry
/// it; its contents stay opaque here.
#[verifier::external_type_specification]
#[verifier::external_body]
pub struct ExInstruction(solana_program::instruction::Instruction);

/// The one downstream call a transition asks the token-ledger service to
/// perform, as plain computed parameters.
#[derive(Debug)]
pub enum LedgerCall {
    MintTo { mint: Pubkey, account: Pubkey, authority: Pubkey, amount: u64 },
    Transfer { source: Pubkey, destination: Pubkey, authority: Pubkey, amount: u64 },
    Burn { account: Pubkey, mint: Pubkey, authority: Pubkey, amount: u64 },
}

/// The mathematical content of a ledger call.
pub enum LedgerCallView {
    MintTo { mint: Seq<u8>, account: Seq<u8>, authority: Seq<u8>, amount: u64 },
    Transfer { source: Seq<u8>, destination: Seq<u8>, authority: Seq<u8>, amount: u64 },
    Burn { account: Seq<u8>, mint: Seq<u8>, authority: Seq<u8>, amount: u64 },
}

impl View for LedgerCall {
    type V = LedgerCallView;

    open spec fn view(&self) -> LedgerCallView {
        match self {
            LedgerCall::MintTo { mint, account, authority, amount } => {
                LedgerCallView::MintTo {
                    mint: mint@,
                    account: account@,
                    authority: authority@,
                    amount: *amount,
                }
            },
            LedgerCall::Transfer { source, destination, authority, amount } => {
                LedgerCallView::Transfer {
                    source: source@,
                    destination: destination@,
                    authority: authority@,
                    amount: *amount,
                }
            },
            LedgerCall::Burn { account, mint, authority, amount } => {
                LedgerCallView::Burn {
                    account: account@,
                    mint: mint@,
                    authority: authority@,
                    amount: *amount,
                }
            },
        }
    }
}

impl LedgerCall {
    pub open spec fn wf(&self) -> bool {
        match self {
            LedgerCall::MintTo { mint, account, authority, .. } => {
                mint.wf() && account.wf() && authority.wf()
            },
            LedgerCall::Transfer { source, destination, authority, .. } => {
                source.wf() && destination.wf() && authority.wf()
            },
            LedgerCall::Burn { account, mint, authority, .. } => {
                account.wf() && mint.wf() && authority.wf()
            },
        }
    }
}

/// Whether an identifier is the token-ledger program's fixed identifier, the
/// condition under which `spl_token::instruction::check_program_account`
/// accepts a target program.
pub uninterp spec fn is_token_ledger_program(key: Seq<u8>) -> bool;

/// The mint instruction `spl_token::instruction::mint_to` builds for the
/// given program, mint, destination, authority and amount: a function of its
/// arguments alone.
pub uninterp spec fn mint_to_instruction_of(
    token_program_id: Seq<u8>,
    mint: Seq<u8>,
    account: Seq<u8>,
    authority: Seq<u8>,
    amount: u64,
) -> solana_program::instruction::Instruction;

/// The transfer instruction `spl_token::instruction::transfer` builds for the
/// given program, source, destination, authority and amount: a function of
/// its arguments alone.
pub uninterp spec fn transfer_instruction_of(
    token_program_id: Seq<u8>,
    source: Seq<u8>,
    destination: Seq<u8>,
    authority: Seq<u8>,
    amount: u64,
) -> solana_program::instruction::Instruction;

/// The burn instruction `spl_token::instruction::burn` builds for the given
/// program, token account, mint, authority and amount: a function of its
/// arguments alone.
pub uninterp spec fn burn_instruction_of(
    token_program_id: Seq<u8>,
    account: Seq<u8>,
    mint: Seq<u8>,
    authority: Seq<u8>,
    amount: u64,
) -> solana_program::instruction::Instruction;

/// The downstream instruction belonging to a computed ledger call: the named
/// build result of the call's own variant, over the call's own fields.
pub open spec fn instruction_of_call(
    token_program_id: Seq<u8>,
    call: LedgerCallView,
) -> solana_program::instruction::Instruction {
    match call {
        LedgerCallView::MintTo { mint, account, authority, amount } => mint_to_instruction_of(
            token_program_id,
            mint,
            account,
            authority,
            amount,
        ),
        LedgerCallView::Transfer { source, destination, authority, amount } => {
            transfer_instruction_of(token_program_id, source, destination, authority, amount)
        },
        LedgerCallView::Burn { account, mint, authority, amount } => burn_instruction_of(
            token_program_id,
            account,
            mint,
            authority,
            amount,
        ),
    }
}

/// Relies on `spl_token::instruction::mint_to`: it returns `Ok` exactly when
/// the target program id passes `check_program_account`, and `Err` otherwise;
/// the built instruction depends on the arguments alone.
#[verifier::external_body]
fn spl_mint_to(
    token_program_id: &Pubkey,
    mint: &Pubkey,
    account: &Pubkey,
    authority: &Pubkey,
    amount: u64,
) -> (r: Result<solana_program::instruction::Instruction, ContractError>)
    requires
        token_program_id.wf(),
        mint.wf(),
        account.wf(),
        authority.wf(),
    ensures
        r is Ok <==> is_token_ledger_program(token_program_id@),
        r matches Ok(i) ==> i == mint_to_instruction_of(
            token_program_id@,
            mint@,
            account@,
            authority@,
            amount,
        ),
        r is Err ==> (r matches Err(e) && e == ContractError::IncorrectProgramId),
{
    let t = solana_program::pubkey::Pubkey::new_from_array(
        token_program_id.bytes.as_slice().try_into().unwrap(),
    );
    let m = solana_program::pubkey::Pubkey::new_from_array(mint.bytes.as_slice().try_into().unwrap());
    let a = solana_program::pubkey::Pubkey::new_from_array(
        account.bytes.as_slice().try_into().unwrap(),
    );
    let o = solana_program::pubkey::Pubkey::new_from_array(
        authority.bytes.as_slice().try_into().unwrap(),
    );
    spl_token::instruction::mint_to(&t, &m, &a, &o, &[], amount)
        .map_err(|_| ContractError::IncorrectProgramId)
}

/// Relies on `spl_token::instruction::transfer`: it returns `Ok` exactly when
/// the target program id passes `check_program_account`, and `Err` otherwise.
#[verifier::external_body]
fn spl_transfer(
    token_program_id: &Pubkey,
    source: &Pubkey,
    destination: &Pubkey,
    authority: &Pubkey,
    amount: u64,
) -> (r: Result<solana_program::instruction::Instruction, ContractError>)
    requires
        token_program_id.wf(),
        source.wf(),
        destination.wf(),
        authority.wf(),
    ensures
        r is Ok <==> is_token_ledger_program(token_program_id@),
        r matches Ok(i) ==> i == transfer_instruction_of(
            token_program_id@,
            source@,
            destination@,
            authority@,
            amount,
        ),
        r is Err ==> (r matches Err(e) && e == ContractError::IncorrectProgramId),
{
    let t = solana_program::pubkey::Pubkey::new_from_array(
        token_program_id.bytes.as_slice().try_into().unwrap(),
    );
    let s = solana_program::pubkey::Pubkey::new_from_array(
        source.bytes.as_slice().try_into().unwrap(),
    );
    let d = solana_program::pubkey::Pubkey::new_from_array(
        destination.bytes.as_slice().try_into().unwrap(),
    );
    let o = solana_program::pubkey::Pubkey::new_from_array(
        authority.bytes.as_slice().try_into().unwrap(),
    );
    spl_token::instruction::transfer(&t, &s, &d, &o, &[], amount)
        .map_err(|_| ContractError::IncorrectProgramId)
}

/// Relies on `spl_token::instruction::burn`: it returns `Ok` exactly when the
/// target program id passes `check_program_account`, and `Err` otherwise.
#[verifier::external_body]
fn spl_burn(
    token_program_id: &Pubkey,
    account: &Pubkey,
    mint: &Pubkey,
    authority: &Pubkey,
    amount: u64,
) -> (r: Result<solana_program::instruction::Instruction, ContractError>)
    requires
        token_program_id.wf(),
        account.wf(),
        mint.wf(),
        authority.wf(),
    ensures
        r is Ok <==> is_token_ledger_program(token_program_id@),
        r matches Ok(i) ==> i == burn_instruction_of(
            token_program_id@,
            account@,
            mint@,
            authority@,
            amount,
        ),
        r is Err ==> (r matches Err(e) && e == ContractError::IncorrectProgramId),
{
    let t = solana_program::pubkey::Pubkey::new_from_array(
        token_program_id.bytes.as_slice().try_into().unwrap(),
    );
    let a = solana_program::pubkey::Pubkey::new_from_array(
        account.bytes.as_slice().try_into().unwrap(),
    );
    let m = solana_program::pubkey::Pubkey::new_from_array(mint.bytes.as_slice().try_into().unwrap());
    let o = solana_program::pubkey::Pubkey::new_from_array(
        authority.bytes.as_slice().try_into().unwrap(),
    );
    spl_token::instruction::burn(&t, &a, &m, &o, &[], amount)
        .map_err(|_| ContractError::IncorrectProgramId)
}

/// Constructs the downstream token-ledger instruction for a computed call:
/// the named build result of the call's own variant over the call's own
/// fields. Succeeds exactly when the target program id is the token-ledger
/// program's.
pub fn build_ledger_instruction(token_program_id: &Pubkey, call: &LedgerCall) -> (r: Result<
    solana_program::instruction::Instruction,
    ContractError,
>)
    requires
        token_program_id.wf(),
        call.wf(),
    ensures
        r is Ok <==> is_token_ledger_program(token_program_id@),
        r matches Ok(i) ==> i == instruction_of_call(token_program_id@, call@),
        r is Err ==> (r matches Err(e) && e == ContractError::IncorrectProgramId),
{
    match call {
        LedgerCall::MintTo { mint, account, authority, amount } => {
            spl_mint_to(token_program_id, mint, account, authority, *amount)
        },
        LedgerCall::Transfer { source, destination, authority, amount } => {
            spl_transfer(token_program_id, source, destination, authority, *amount)
        },
        LedgerCall::Burn { account, mint, authority, amount } => {
            spl_burn(token_program_id, account, mint, authority, *amount)
        },
    }
}

} // verus!
