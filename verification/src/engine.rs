//! The authorization and state engine: each transition validates caller
//! authority against persisted state and computes its outcome as [`Effects`] —
//! staged account writes plus at most one ledger call — which the host applies
//! as one all-or-nothing unit. Contract state and mint permissions live in
//! distinct storage accounts, so deserialization never guesses which record a
//! buffer holds.

use vstd::prelude::*;
use vstd::bytes::{lemma_auto_spec_u64_to_from_le_bytes, spec_u64_from_le_bytes, spec_u64_to_le_bytes};
use crate::errors::{ContractError, CustomError};
use crate::instruction::{decode_model, ContractInstruction, InstructionView};
use crate::keys::{pubkey_eq, Pubkey};
use crate::ledger::{LedgerCall, LedgerCallView};
use crate::state::{
    permission_bytes, permission_decode, state_bytes, string_field_fits, ContractState,
    MintPermission, STATE_LEN,
};
use crate::sysvars::{
    is_rent_sysvar, rent_byte_year_rate, rent_exempt_balance, rent_exemption, rent_id_check,
    rent_math_fits, RENT_PARAMS_LEN,
};

verus! {

/// One host-supplied account reference: its identifier, balance, persisted
/// buffer, and owning-program identifier.
#[derive(Debug)]
pub struct AccountRef {
    pub key: Pubkey,
    pub lamports: u64,
    pub data: Vec<u8>,
    pub owner: Pubkey,
}

/// The mathematical content of an account reference.
pub struct AccountView {
    pub key: Seq<u8>,
    pub lamports: u64,
    pub data: Seq<u8>,
    pub owner: Seq<u8>,
}

impl View for AccountRef {
    type V = AccountView;

    open spec fn view(&self) -> AccountView {
        AccountView {
            key: self.key@,
            lamports: self.lamports,
            data: self.data@,
            owner: self.owner@,
        }
    }
}

impl AccountRef {
    pub open spec fn wf(&self) -> bool {
        self.key.wf() && self.owner.wf()
    }
}

pub open spec fn accounts_wf(accounts: Seq<AccountRef>) -> bool {
    forall|i: int| 0 <= i < accounts.len() ==> #[trigger] accounts[i].wf()
}

pub open spec fn account_views(accounts: Seq<AccountRef>) -> Seq<AccountView> {
    accounts.map_values(|a: AccountRef| a@)
}

/// One staged write: the new content of the account at the given position.
#[derive(Debug)]
pub struct AccountWrite {
    pub index: usize,
    pub data: Vec<u8>,
}

/// The mathematical content of a staged write.
pub struct WriteView {
    pub index: int,
    pub data: Seq<u8>,
}

impl View for AccountWrite {
    type V = WriteView;

    open spec fn view(&self) -> WriteView {
        WriteView { index: self.index as int, data: self.data@ }
    }
}

/// Everything a transition asks the host to make happen: the staged account
/// writes, and at most one call to the token-ledger service. The host applies
/// all of it or none of it.
#[derive(Debug)]
pub struct Effects {
    pub writes: Vec<AccountWrite>,
    pub ledger: Option<LedgerCall>,
}

/// The mathematical content of a transition's effects.
pub struct EffectsView {
    pub writes: Seq<WriteView>,
    pub ledger: Option<LedgerCallView>,
}

impl View for Effects {
    type V = EffectsView;

    open spec fn view(&self) -> EffectsView {
        EffectsView {
            writes: self.writes@.map_values(|w: AccountWrite| w@),
            ledger: match self.ledger {
                Some(c) => Some(c@),
                None => None,
            },
        }
    }
}

impl Effects {
    pub open spec fn wf(&self) -> bool {
        match self.ledger {
            Some(c) => c.wf(),
            None => true,
        }
    }
}

/// The result of a fallible transition, as its model.
pub open spec fn effects_result_model(r: Result<Effects, ContractError>) -> Result<
    EffectsView,
    ContractError,
> {
    match r {
        Ok(e) => Ok(e@),
        Err(e) => Err(e),
    }
}

/// The successor of the token counter.
pub open spec fn next_token_id(last: u64) -> u64
    recommends
        last < u64::MAX,
{
    (last + 1) as u64
}

/// What initialization does: after the storage-exemption check, the contract
/// storage account is overwritten with a state record naming the supplied
/// owner and a counter of zero. Rent parameters whose arithmetic would
/// overflow the host's computation are rejected as invalid, like corrupt
/// parameters, rather than crashing.
pub open spec fn initialize_model(accounts: Seq<AccountView>, owner: Seq<u8>) -> Result<
    EffectsView,
    ContractError,
> {
    if accounts.len() < 2 {
        Err(ContractError::NotEnoughAccountKeys)
    } else if !rent_id_check(accounts[1].key) {
        Err(ContractError::InvalidArgument)
    } else {
        if accounts[1].data.len() < RENT_PARAMS_LEN {
            Err(ContractError::InvalidArgument)
        } else if !rent_math_fits(
            rent_byte_year_rate(accounts[1].data),
            accounts[0].data.len() as int,
        ) {
            Err(ContractError::InvalidArgument)
        } else {
            match rent_exemption(
                accounts[1].data,
                accounts[0].lamports,
                accounts[0].data.len() as int,
            ) {
                None => Err(ContractError::InvalidArgument),
                Some(exempt) => {
                    if !exempt {
                        Err(ContractError::AccountNotRentExempt)
                    } else if accounts[0].data.len() != STATE_LEN {
                        Err(ContractError::DeserializationFailed)
                    } else {
                        Ok(
                            EffectsView {
                                writes: seq![WriteView { index: 0, data: state_bytes(owner, 0) }],
                                ledger: None,
                            },
                        )
                    }
                },
            }
        }
    }
}

/// What granting does: only the persisted administrator may grant, and on
/// success the permission record is serialized into the permission storage
/// account, leaving any bytes past the record unchanged.
pub open spec fn grant_model(
    accounts: Seq<AccountView>,
    user: Seq<u8>,
    game_id: Seq<char>,
    token_uri: Seq<char>,
) -> Result<EffectsView, ContractError> {
    if accounts.len() < 3 {
        Err(ContractError::NotEnoughAccountKeys)
    } else if accounts[0].data.len() != STATE_LEN {
        Err(ContractError::DeserializationFailed)
    } else if accounts[0].data.take(32) != accounts[1].key {
        Err(ContractError::Custom(CustomError::NotAdmin))
    } else if !(string_field_fits(game_id) && string_field_fits(token_uri)) {
        Err(ContractError::SerializationFailed)
    } else {
        let record = permission_bytes(user, game_id, token_uri);
        if record.len() > accounts[2].data.len() {
            Err(ContractError::SerializationFailed)
        } else {
            Ok(
                EffectsView {
                    writes: seq![
                        WriteView {
                            index: 2,
                            data: record + accounts[2].data.skip(record.len() as int),
                        },
                    ],
                    ledger: None,
                },
            )
        }
    }
}

/// What minting does: the stored permission must name the contract storage
/// account and the requested game, and on success the counter is incremented
/// by exactly one and a one-unit mint is delegated to the ledger service.
pub open spec fn mint_model(accounts: Seq<AccountView>, game_id: Seq<char>) -> Result<
    EffectsView,
    ContractError,
> {
    if accounts.len() < 4 {
        Err(ContractError::NotEnoughAccountKeys)
    } else if accounts[0].data.len() != STATE_LEN {
        Err(ContractError::DeserializationFailed)
    } else {
        match permission_decode(accounts[3].data) {
            Err(e) => Err(e),
            Ok(perm) => {
                if perm.user != accounts[0].key || perm.game_id != game_id {
                    Err(ContractError::Custom(CustomError::MintNotPermitted))
                } else {
                    let last = spec_u64_from_le_bytes(accounts[0].data.skip(32));
                    if last == u64::MAX {
                        Err(ContractError::ArithmeticOverflow)
                    } else {
                        Ok(
                            EffectsView {
                                writes: seq![
                                    WriteView {
                                        index: 0,
                                        data: state_bytes(
                                            accounts[0].data.take(32),
                                            next_token_id(last),
                                        ),
                                    },
                                ],
                                ledger: Some(
                                    LedgerCallView::MintTo {
                                        mint: accounts[1].key,
                                        account: accounts[2].key,
                                        authority: accounts[0].key,
                                        amount: 1,
                                    },
                                ),
                            },
                        )
                    }
                }
            },
        }
    }
}

/// What transferring does: the first account must be the declared owner, and a
/// one-unit transfer is delegated to the ledger service. The instruction's
/// token id is accepted but selects nothing.
pub open spec fn transfer_model(accounts: Seq<AccountView>, owner: Seq<u8>) -> Result<
    EffectsView,
    ContractError,
> {
    if accounts.len() < 2 {
        Err(ContractError::NotEnoughAccountKeys)
    } else if accounts[0].key != owner {
        Err(ContractError::Custom(CustomError::NotTokenOwner))
    } else {
        Ok(
            EffectsView {
                writes: Seq::empty(),
                ledger: Some(
                    LedgerCallView::Transfer {
                        source: accounts[0].key,
                        destination: accounts[1].key,
                        authority: accounts[0].key,
                        amount: 1,
                    },
                ),
            },
        )
    }
}

/// What burning does: a burn of the raw token-id quantity from the first
/// account's token account under the second account's mint is delegated to
/// the ledger service.
pub open spec fn burn_model(accounts: Seq<AccountView>, token_id: u64) -> Result<
    EffectsView,
    ContractError,
> {
    if accounts.len() < 2 {
        Err(ContractError::NotEnoughAccountKeys)
    } else {
        Ok(
            EffectsView {
                writes: Seq::empty(),
                ledger: Some(
                    LedgerCallView::Burn {
                        account: accounts[0].key,
                        mint: accounts[1].key,
                        authority: accounts[0].key,
                        amount: token_id,
                    },
                ),
            },
        )
    }
}

/// What one whole invocation does: decode, then dispatch on the variant.
pub open spec fn process_model(accounts: Seq<AccountView>, data: Seq<u8>) -> Result<
    EffectsView,
    ContractError,
> {
    match decode_model(data) {
        Err(e) => Err(e),
        Ok(InstructionView::InitializeContract { owner }) => initialize_model(accounts, owner),
        Ok(InstructionView::GrantMint { user, game_id, token_uri }) => grant_model(
            accounts,
            user,
            game_id,
            token_uri,
        ),
        Ok(InstructionView::Mint { receiver, game_id }) => mint_model(accounts, game_id),
        Ok(InstructionView::Transfer { token_id, owner, receiver }) => transfer_model(
            accounts,
            owner,
        ),
        Ok(InstructionView::Burn { token_id }) => burn_model(accounts, token_id),
    }
}

/// Applies the initialize transition, exactly as [`initialize_model`] says.
pub fn initialize_contract(program_id: &Pubkey, accounts: &Vec<AccountRef>, owner: Pubkey) -> (r:
    Result<Effects, ContractError>)
    requires
        accounts_wf(accounts@),
        owner.wf(),
    ensures
        effects_result_model(r) == initialize_model(account_views(accounts@), owner@),
        r matches Ok(e) ==> e.wf(),
{
    if accounts.len() < 2 {
        return Err(ContractError::NotEnoughAccountKeys);
    }
    let contract_account = &accounts[0];
    let rent_account = &accounts[1];
    proof {
        assert(accounts@[0].wf());
        assert(accounts@[1].wf());
    }
    if !is_rent_sysvar(&rent_account.key) {
        return Err(ContractError::InvalidArgument);
    }
    let data_len = contract_account.data.len();
    if rent_account.data.len() < RENT_PARAMS_LEN {
        return Err(ContractError::InvalidArgument);
    }
    let rate = vstd::bytes::u64_from_le_bytes(
        vstd::slice::slice_subrange(rent_account.data.as_slice(), 0, 8),
    );
    proof {
        assert(rent_account.data@.subrange(0, 8) =~= rent_account.data@.take(8));
    }
    let padded = match 128u64.checked_add(data_len as u64) {
        None => {
            return Err(ContractError::InvalidArgument);
        },
        Some(padded) => padded,
    };
    if padded.checked_mul(rate).is_none() {
        return Err(ContractError::InvalidArgument);
    }
    match rent_exempt_balance(&rent_account.data, contract_account.lamports, data_len) {
        None => {
            return Err(ContractError::InvalidArgument);
        },
        Some(exempt) => {
            if !exempt {
                return Err(ContractError::AccountNotRentExempt);
            }
        },
    }
    if contract_account.data.len() != STATE_LEN {
        return Err(ContractError::DeserializationFailed);
    }
    let new_state = ContractState { contract_owner: owner, last_token_id: 0 };
    let new_data = new_state.to_bytes();
    let mut writes: Vec<AccountWrite> = Vec::new();
    writes.push(AccountWrite { index: 0, data: new_data });
    let eff = Effects { writes, ledger: None };
    proof {
        match initialize_model(account_views(accounts@), owner@) {
            Ok(m) => {
                assert(eff@.writes =~= m.writes);
            },
            Err(_) => {},
        }
    }
    Ok(eff)
}

/// Applies the grant transition, exactly as [`grant_model`] says.
pub fn grant_mint(
    program_id: &Pubkey,
    accounts: &Vec<AccountRef>,
    user: Pubkey,
    game_id: String,
    token_uri: String,
) -> (r: Result<Effects, ContractError>)
    requires
        accounts_wf(accounts@),
        user.wf(),
    ensures
        effects_result_model(r) == grant_model(
            account_views(accounts@),
            user@,
            game_id@,
            token_uri@,
        ),
        r matches Ok(e) ==> e.wf(),
{
    if accounts.len() < 3 {
        return Err(ContractError::NotEnoughAccountKeys);
    }
    let contract_account = &accounts[0];
    let admin_account = &accounts[1];
    let permission_account = &accounts[2];
    let contract_state = ContractState::try_from_slice(contract_account.data.as_slice())?;
    proof {
        assert(accounts@[0].wf());
        assert(accounts@[1].wf());
    }
    if !pubkey_eq(&contract_state.contract_owner, &admin_account.key) {
        return Err(ContractError::from(CustomError::NotAdmin));
    }
    let mint_permission = MintPermission { user, game_id, token_uri };
    let record = mint_permission.to_bytes()?;
    let record_len = record.len();
    if record_len > permission_account.data.len() {
        return Err(ContractError::SerializationFailed);
    }
    let mut new_data = record;
    let mut tail = vstd::slice::slice_to_vec(
        vstd::slice::slice_subrange(
            permission_account.data.as_slice(),
            record_len,
            permission_account.data.len(),
        ),
    );
    new_data.append(&mut tail);
    let mut writes: Vec<AccountWrite> = Vec::new();
    writes.push(AccountWrite { index: 2, data: new_data });
    let eff = Effects { writes, ledger: None };
    proof {
        match grant_model(account_views(accounts@), user@, game_id@, token_uri@) {
            Ok(m) => {
                assert(eff@.writes =~= m.writes);
            },
            Err(_) => {},
        }
    }
    Ok(eff)
}

/// Applies the mint transition, exactly as [`mint_model`] says. The decoded
/// receiver field is accepted but the receiving token account is taken from
/// the account list.
pub fn mint(
    program_id: &Pubkey,
    accounts: &Vec<AccountRef>,
    receiver: Pubkey,
    game_id: String,
) -> (r: Result<Effects, ContractError>)
    requires
        accounts_wf(accounts@),
    ensures
        effects_result_model(r) == mint_model(account_views(accounts@), game_id@),
        r matches Ok(e) ==> e.wf(),
{
    if accounts.len() < 4 {
        return Err(ContractError::NotEnoughAccountKeys);
    }
    let contract_account = &accounts[0];
    let mint_account = &accounts[1];
    let receiver_account = &accounts[2];
    let permission_account = &accounts[3];
    proof {
        assert(accounts@[0].wf());
        assert(accounts@[1].wf());
        assert(accounts@[2].wf());
        assert(accounts@[3].wf());
    }
    let contract_state = ContractState::try_from_slice(contract_account.data.as_slice())?;
    let mint_permission = MintPermission::try_from_slice(permission_account.data.as_slice())?;
    if !pubkey_eq(&mint_permission.user, &contract_account.key) || !(mint_permission.game_id
        == game_id) {
        return Err(ContractError::from(CustomError::MintNotPermitted));
    }
    if contract_state.last_token_id == u64::MAX {
        return Err(ContractError::ArithmeticOverflow);
    }
    let new_state = ContractState {
        contract_owner: contract_state.contract_owner,
        last_token_id: contract_state.last_token_id + 1,
    };
    let new_data = new_state.to_bytes();
    let mut writes: Vec<AccountWrite> = Vec::new();
    writes.push(AccountWrite { index: 0, data: new_data });
    let call = LedgerCall::MintTo {
        mint: mint_account.key.dup(),
        account: receiver_account.key.dup(),
        authority: contract_account.key.dup(),
        amount: 1,
    };
    let eff = Effects { writes, ledger: Some(call) };
    proof {
        match mint_model(account_views(accounts@), game_id@) {
            Ok(m) => {
                assert(eff@.writes =~= m.writes);
            },
            Err(_) => {},
        }
    }
    Ok(eff)
}

/// Applies the transfer transition, exactly as [`transfer_model`] says. The
/// token id and declared receiver are accepted but select nothing: the ledger
/// call moves one unit between the two supplied accounts.
pub fn transfer(
    program_id: &Pubkey,
    accounts: &Vec<AccountRef>,
    token_id: u64,
    owner: Pubkey,
    receiver: Pubkey,
) -> (r: Result<Effects, ContractError>)
    requires
        accounts_wf(accounts@),
        owner.wf(),
    ensures
        effects_result_model(r) == transfer_model(account_views(accounts@), owner@),
        r matches Ok(e) ==> e.wf(),
{
    if accounts.len() < 2 {
        return Err(ContractError::NotEnoughAccountKeys);
    }
    let owner_account = &accounts[0];
    let receiver_account = &accounts[1];
    proof {
        assert(accounts@[0].wf());
        assert(accounts@[1].wf());
    }
    if !pubkey_eq(&owner_account.key, &owner) {
        return Err(ContractError::from(CustomError::NotTokenOwner));
    }
    let call = LedgerCall::Transfer {
        source: owner_account.key.dup(),
        destination: receiver_account.key.dup(),
        authority: owner_account.key.dup(),
        amount: 1,
    };
    let eff = Effects { writes: Vec::new(), ledger: Some(call) };
    proof {
        match transfer_model(account_views(accounts@), owner@) {
            Ok(m) => {
                assert(eff@.writes =~= m.writes);
            },
            Err(_) => {},
        }
    }
    Ok(eff)
}

/// Applies the burn transition, exactly as [`burn_model`] says: the raw token
/// id is passed through as the burn quantity.
pub fn burn(program_id: &Pubkey, accounts: &Vec<AccountRef>, token_id: u64) -> (r: Result<
    Effects,
    ContractError,
>)
    requires
        accounts_wf(accounts@),
    ensures
        effects_result_model(r) == burn_model(account_views(accounts@), token_id),
        r matches Ok(e) ==> e.wf(),
{
    if accounts.len() < 2 {
        return Err(ContractError::NotEnoughAccountKeys);
    }
    let owner_account = &accounts[0];
    let mint_account = &accounts[1];
    proof {
        assert(accounts@[0].wf());
        assert(accounts@[1].wf());
    }
    let call = LedgerCall::Burn {
        account: owner_account.key.dup(),
        mint: mint_account.key.dup(),
        authority: owner_account.key.dup(),
        amount: token_id,
    };
    let eff = Effects { writes: Vec::new(), ledger: Some(call) };
    proof {
        match burn_model(account_views(accounts@), token_id) {
            Ok(m) => {
                assert(eff@.writes =~= m.writes);
            },
            Err(_) => {},
        }
    }
    Ok(eff)
}

/// Decodes one instruction buffer and applies its transition, exactly as
/// [`process_model`] says.
pub fn process_instruction(
    program_id: &Pubkey,
    accounts: &Vec<AccountRef>,
    instruction_data: &[u8],
) -> (r: Result<Effects, ContractError>)
    requires
        accounts_wf(accounts@),
    ensures
        effects_result_model(r) == process_model(account_views(accounts@), instruction_data@),
        r matches Ok(e) ==> e.wf(),
{
    let instruction = ContractInstruction::unpack(instruction_data)?;
    match instruction {
        ContractInstruction::InitializeContract { owner } => {
            initialize_contract(program_id, accounts, owner)
        },
        ContractInstruction::GrantMint { user, game_id, token_uri } => {
            grant_mint(program_id, accounts, user, game_id, token_uri)
        },
        ContractInstruction::Mint { receiver, game_id } => {
            mint(program_id, accounts, receiver, game_id)
        },
        ContractInstruction::Transfer { token_id, owner, receiver } => {
            transfer(program_id, accounts, token_id, owner, receiver)
        },
        ContractInstruction::Burn { token_id } => burn(program_id, accounts, token_id),
    }
}

/// Law: a successful mint stages exactly one write, to the contract storage
/// account, which keeps the persisted owner and raises the counter by exactly
/// one — monotonic, no gaps, no reuse.
pub proof fn lemma_mint_increments_counter(accounts: Seq<AccountView>, game_id: Seq<char>)
    requires
        mint_model(accounts, game_id) is Ok,
    ensures
        mint_model(accounts, game_id) matches Ok(e) && e.writes.len() == 1 && e.writes[0].index
            == 0 && e.writes[0].data.take(32) == accounts[0].data.take(32)
            && spec_u64_from_le_bytes(e.writes[0].data.skip(32)) == spec_u64_from_le_bytes(
            accounts[0].data.skip(32),
        ) + 1,
{
    lemma_auto_spec_u64_to_from_le_bytes();
    if let Ok(e) = mint_model(accounts, game_id) {
        let owner = accounts[0].data.take(32);
        let last = spec_u64_from_le_bytes(accounts[0].data.skip(32));
        let next = next_token_id(last);
        assert(e.writes[0].data == state_bytes(owner, next));
        assert(state_bytes(owner, next).take(32) =~= owner);
        assert(state_bytes(owner, next).skip(32) =~= spec_u64_to_le_bytes(next));
    }
}

/// The accounts after a transition's staged writes are applied: each write
/// replaces the named account's buffer and touches nothing else.
pub open spec fn apply_writes(accounts: Seq<AccountView>, writes: Seq<WriteView>) -> Seq<
    AccountView,
>
    decreases writes.len(),
{
    if writes.len() == 0 {
        accounts
    } else {
        let w = writes[0];
        let updated = if 0 <= w.index < accounts.len() {
            accounts.update(
                w.index,
                AccountView {
                    key: accounts[w.index].key,
                    lamports: accounts[w.index].lamports,
                    data: w.data,
                    owner: accounts[w.index].owner,
                },
            )
        } else {
            accounts
        };
        apply_writes(updated, writes.drop_first())
    }
}

/// The accounts after a number of consecutive mint invocations, each one's
/// staged writes applied before the next; a failing invocation changes
/// nothing.
pub open spec fn accounts_after_mints(
    accounts: Seq<AccountView>,
    game_id: Seq<char>,
    n: nat,
) -> Seq<AccountView>
    decreases n,
{
    if n == 0 {
        accounts
    } else {
        let prev = accounts_after_mints(accounts, game_id, (n - 1) as nat);
        match mint_model(prev, game_id) {
            Ok(e) => apply_writes(prev, e.writes),
            Err(_) => prev,
        }
    }
}

/// Law: starting from a freshly initialized state and a standing permission
/// that names the contract storage account and the requested game, any number
/// of consecutive mint invocations up to the counter's range all succeed, and
/// afterwards the persisted counter equals that number — monotonic increments
/// with no gaps and no reuse. Instantiating the law at each smaller count
/// shows every single step succeeded.
pub proof fn lemma_n_consecutive_mints(accounts: Seq<AccountView>, game_id: Seq<char>, n: nat)
    requires
        accounts.len() >= 4,
        accounts[0].data.len() == STATE_LEN,
        spec_u64_from_le_bytes(accounts[0].data.skip(32)) == 0,
        permission_decode(accounts[3].data) matches Ok(p) && p.user == accounts[0].key
            && p.game_id == game_id,
        n <= u64::MAX,
    ensures
        ({
            let fin = accounts_after_mints(accounts, game_id, n);
            &&& fin.len() == accounts.len()
            &&& forall|i: int| 0 < i < accounts.len() ==> fin[i] == accounts[i]
            &&& fin[0].key == accounts[0].key
            &&& fin[0].lamports == accounts[0].lamports
            &&& fin[0].owner == accounts[0].owner
            &&& fin[0].data == state_bytes(accounts[0].data.take(32), n as u64)
            &&& spec_u64_from_le_bytes(fin[0].data.skip(32)) == n
            &&& (n > 0 ==> mint_model(
                accounts_after_mints(accounts, game_id, (n - 1) as nat),
                game_id,
            ) is Ok)
        }),
    decreases n,
{
    lemma_auto_spec_u64_to_from_le_bytes();
    let owner = accounts[0].data.take(32);
    if n == 0 {
        assert(accounts[0].data.skip(32) =~= spec_u64_to_le_bytes(0u64));
        assert(accounts[0].data =~= state_bytes(owner, 0u64));
    } else {
        lemma_n_consecutive_mints(accounts, game_id, (n - 1) as nat);
        let prev = accounts_after_mints(accounts, game_id, (n - 1) as nat);
        let last = spec_u64_from_le_bytes(prev[0].data.skip(32));
        assert(state_bytes(owner, (n - 1) as u64).skip(32) =~= spec_u64_to_le_bytes(
            (n - 1) as u64,
        ));
        assert(last == (n - 1) as u64);
        assert(prev[0].data.len() == STATE_LEN);
        assert(prev[3] == accounts[3]);
        assert(mint_model(prev, game_id) is Ok);
        if let Ok(e) = mint_model(prev, game_id) {
            assert(prev[0].data.take(32) =~= owner);
            assert(next_token_id(last) == n as u64);
            let updated = prev.update(
                0,
                AccountView {
                    key: prev[0].key,
                    lamports: prev[0].lamports,
                    data: e.writes[0].data,
                    owner: prev[0].owner,
                },
            );
            assert(apply_writes(prev, e.writes) == apply_writes(updated, e.writes.drop_first()));
            assert(e.writes.drop_first().len() == 0);
            assert(apply_writes(updated, e.writes.drop_first()) == updated);
            assert(updated[0].data == state_bytes(owner, n as u64));
            assert(state_bytes(owner, n as u64).skip(32) =~= spec_u64_to_le_bytes(n as u64));
        }
    }
}

/// Law: a grant whose claimed administrator differs from the persisted owner
/// always fails with the admin error; no write is staged, so persisted state
/// stays byte for byte unchanged.
pub proof fn lemma_grant_requires_admin(
    accounts: Seq<AccountView>,
    user: Seq<u8>,
    game_id: Seq<char>,
    token_uri: Seq<char>,
)
    requires
        accounts.len() >= 3,
        accounts[0].data.len() == STATE_LEN,
        accounts[0].data.take(32) != accounts[1].key,
    ensures
        grant_model(accounts, user, game_id, token_uri) == Err::<EffectsView, ContractError>(
            ContractError::Custom(CustomError::NotAdmin),
        ),
{
}

/// Law: a mint whose stored permission does not name the requesting storage
/// account and game pair always fails as not permitted.
pub proof fn lemma_mint_requires_permission(accounts: Seq<AccountView>, game_id: Seq<char>)
    requires
        accounts.len() >= 4,
        accounts[0].data.len() == STATE_LEN,
        permission_decode(accounts[3].data) matches Ok(p) && (p.user != accounts[0].key
            || p.game_id != game_id),
    ensures
        mint_model(accounts, game_id) == Err::<EffectsView, ContractError>(
            ContractError::Custom(CustomError::MintNotPermitted),
        ),
{
}

/// Law: a transfer whose first account is not the declared owner always fails
/// with the ownership error, whatever the balances involved.
pub proof fn lemma_transfer_requires_owner(accounts: Seq<AccountView>, owner: Seq<u8>)
    requires
        accounts.len() >= 2,
        accounts[0].key != owner,
    ensures
        transfer_model(accounts, owner) == Err::<EffectsView, ContractError>(
            ContractError::Custom(CustomError::NotTokenOwner),
        ),
{
}

} // verus!
