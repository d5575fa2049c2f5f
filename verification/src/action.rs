//! What a handler asks of the host.
//!
//! A handler changes nothing itself.  It decides, and returns the list of [`Action`]s that
//! the host is to carry out in order, as one indivisible unit: if the host refuses one of
//! them, or the list ends in a failure, none takes effect.

use crate::address::{system_program_id, token_program_id, Address};
use crate::error::Failure;
use crate::state::ExchangeState;
use vstd::bytes::spec_u64_to_le_bytes;
use vstd::prelude::*;

verus! {

/// How an instruction for another program refers to one account.
#[derive(Clone, Copy, Debug, PartialEq, Eq)]
pub struct AccountMeta {
    /// The address of the account.
    pub pubkey: Address,
    /// Whether the account has to sign.
    pub is_signer: bool,
    /// Whether the instruction may change the account.
    pub is_writable: bool,
}

/// An instruction for another program.
#[derive(Clone, Debug, PartialEq, Eq)]
pub struct Instruction {
    /// The program that is to run the instruction.
    pub program_id: Address,
    /// The accounts that the instruction reads or changes.
    pub accounts: Vec<AccountMeta>,
    /// The payload, in the encoding of that program.
    pub data: Vec<u8>,
}

/// The mathematical value of an [`Instruction`].
pub struct InstructionView {
    pub program_id: Address,
    pub accounts: Seq<AccountMeta>,
    pub data: Seq<u8>,
}

impl View for Instruction {
    type V = InstructionView;

    open spec fn view(&self) -> InstructionView {
        InstructionView { program_id: self.program_id, accounts: self.accounts@, data: self.data@ }
    }
}

/// One step that a handler asks the host to carry out.
#[derive(Clone, Debug, PartialEq, Eq)]
pub enum Action {
    /// Allocate `account` with `space` bytes of data, owned by `owner`, and have `payer`
    /// fund it with the balance that exempts it from rent, under the rent configuration
    /// that the account `rent` holds.
    CreateAccount { payer: Address, account: Address, space: u64, owner: Address, rent: Address },
    /// Run `instruction` in its program, handing it the listed accounts.
    Invoke { instruction: Instruction, accounts: Vec<Address> },
    /// Encode `state` into the data of `account`.
    Store { account: Address, state: ExchangeState },
    /// Take `lamports` from the balance of `from` and add them to the balance of `to`.
    MoveLamports { from: Address, to: Address, lamports: u64 },
    /// Give the invocation up and report `error`.  A handler ends its list with this where
    /// it meets a failure only after it has asked something of the host: a host that
    /// refuses what was asked first reports its own failure instead.
    Fail { error: Failure },
}

/// The mathematical value of an [`Action`].
pub enum ActionView {
    CreateAccount { payer: Address, account: Address, space: u64, owner: Address, rent: Address },
    Invoke { instruction: InstructionView, accounts: Seq<Address> },
    Store { account: Address, state: ExchangeState },
    MoveLamports { from: Address, to: Address, lamports: u64 },
    Fail { error: Failure },
}

impl View for Action {
    type V = ActionView;

    open spec fn view(&self) -> ActionView {
        match *self {
            Action::CreateAccount {
                payer,
                account,
                space,
                owner,
                rent,
            } => ActionView::CreateAccount { payer, account, space, owner, rent },
            Action::Invoke { instruction, accounts } => ActionView::Invoke {
                instruction: instruction@,
                accounts: accounts@,
            },
            Action::Store { account, state } => ActionView::Store { account, state },
            Action::MoveLamports { from, to, lamports } => ActionView::MoveLamports {
                from,
                to,
                lamports,
            },
            Action::Fail { error } => ActionView::Fail { error },
        }
    }
}

/// The values of a list of actions, in order.
pub open spec fn action_views(actions: Seq<Action>) -> Seq<ActionView> {
    actions.map_values(|a: Action| a@)
}

/// The system program's instruction that moves `lamports` of native currency from `from`,
/// which signs, to `to`.
pub open spec fn spec_system_transfer(from: Address, to: Address, lamports: u64) -> InstructionView {
    InstructionView {
        program_id: system_program_id(),
        accounts: seq![
            AccountMeta { pubkey: from, is_signer: true, is_writable: true },
            AccountMeta { pubkey: to, is_signer: false, is_writable: true },
        ],
        data: seq![2u8, 0u8, 0u8, 0u8] + spec_u64_to_le_bytes(lamports),
    }
}

/// The token program's instruction that moves `amount` tokens from `source` to
/// `destination` on the word of `authority`, which signs.  There is none for a program
/// other than the token program.
pub open spec fn spec_token_transfer(
    token_program: Address,
    source: Address,
    destination: Address,
    authority: Address,
    amount: u64,
) -> Option<InstructionView> {
    if token_program == token_program_id() {
        Some(
            InstructionView {
                program_id: token_program,
                accounts: seq![
                    AccountMeta { pubkey: source, is_signer: false, is_writable: true },
                    AccountMeta { pubkey: destination, is_signer: false, is_writable: true },
                    AccountMeta { pubkey: authority, is_signer: true, is_writable: false },
                ],
                data: seq![3u8] + spec_u64_to_le_bytes(amount),
            },
        )
    } else {
        None
    }
}

/// Builds a transfer of native currency with `solana_program::system_instruction::transfer`.
///
/// Trusted: the result is addressed to the system program, names `from` as a writable
/// signer and `to` as writable, and carries the transfer's tag, 2 as four bytes, followed by
/// the amount, both least significant byte first.
#[verifier::external_body]
pub(crate) fn system_transfer(from: &Address, to: &Address, lamports: u64) -> (ix: Instruction)
    ensures
        ix@ == spec_system_transfer(*from, *to, lamports),
{
    let from = solana_program::pubkey::Pubkey::new_from_array(from.bytes);
    let to = solana_program::pubkey::Pubkey::new_from_array(to.bytes);
    let ix = solana_program::system_instruction::transfer(&from, &to, lamports);
    let meta = |m: &solana_program::instruction::AccountMeta| AccountMeta {
        pubkey: Address { bytes: m.pubkey.to_bytes() },
        is_signer: m.is_signer,
        is_writable: m.is_writable,
    };
    let accounts = ix.accounts.iter().map(meta).collect();
    Instruction { program_id: Address { bytes: ix.program_id.to_bytes() }, accounts, data: ix.data }
}

/// The host's own error type, `solana_program::program_error::ProgramError`: carried, never
/// looked into.
#[verifier::external_type_specification]
#[verifier::external_body]
pub struct ExHostError(solana_program::program_error::ProgramError);

/// Builds a transfer of tokens with `spl_token::instruction::transfer`, for a single
/// authority.
///
/// Trusted: the call succeeds exactly for the token program's own address.  The result is
/// then addressed to it, names `source` and `destination` as writable and `authority` as a
/// read-only signer, and carries the tag 3 followed by the amount, least significant byte
/// first.
#[verifier::external_body]
pub(crate) fn token_transfer(
    token_program: &Address,
    source: &Address,
    destination: &Address,
    authority: &Address,
    amount: u64,
) -> (r: Result<Instruction, solana_program::program_error::ProgramError>)
    ensures
        match r {
            Ok(ix) => Some(ix@) == spec_token_transfer(
                *token_program,
                *source,
                *destination,
                *authority,
                amount,
            ),
            Err(_) => spec_token_transfer(*token_program, *source, *destination, *authority, amount)
                is None,
        },
{
    let key = |a: &Address| solana_program::pubkey::Pubkey::new_from_array(a.bytes);
    let (program, source, destination) = (key(token_program), key(source), key(destination));
    let ix = spl_token::instruction::transfer(
        &program, &source, &destination, &key(authority), &[], amount)?;
    let meta = |m: &solana_program::instruction::AccountMeta| AccountMeta {
        pubkey: Address { bytes: m.pubkey.to_bytes() },
        is_signer: m.is_signer,
        is_writable: m.is_writable,
    };
    let accounts = ix.accounts.iter().map(meta).collect();
    Ok(Instruction { program_id: Address { bytes: ix.program_id.to_bytes() }, accounts, data: ix.data })
}

} // verus!
