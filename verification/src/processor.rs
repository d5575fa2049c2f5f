//! The instruction processor: decoding, validation, rate arithmetic and the four handlers.
//!
//! Every handler reads the accounts it is given by position, checks its preconditions in a
//! fixed order, and returns either the first failure or the list of actions that the host
//! is to carry out.  What each returns is given by a specification function of the same
//! name, prefixed with `spec_`.

use crate::account::{account_views, AccountInfo, AccountInfoView};
use crate::action::{
    action_views, spec_system_transfer, spec_token_transfer, system_transfer, token_transfer,
    Action, ActionView,
};
use crate::address::Address;
use crate::error::{ExchangeError, Failure};
use crate::instruction::ExchangeInstruction;
use crate::state::ExchangeState;
use vstd::prelude::*;

verus! {

/// The outcome of a handler: the actions to carry out, or the failure.
pub type Outcome = Result<Vec<Action>, Failure>;

/// The mathematical value of an outcome.
pub open spec fn outcome_view(outcome: Outcome) -> Result<Seq<ActionView>, Failure> {
    match outcome {
        Ok(actions) => Ok(action_views(actions@)),
        Err(e) => Err(e),
    }
}

/// The outcome is the expected one.  This is `outcome_view(outcome) == expected`, said once
/// more action by action, which is the form that a caller's proof picks up by itself.
pub open spec fn outcome_is(
    outcome: Outcome,
    expected: Result<Seq<ActionView>, Failure>,
) -> bool {
    &&& outcome_view(outcome) == expected
    &&& outcome matches Ok(actions) ==> {
        &&& actions@.len() == expected->Ok_0.len()
        &&& forall|i: int|
            0 <= i < actions@.len() ==> (#[trigger] actions@[i])@ == expected->Ok_0[i]
    }
}

/// The outcome grants what was asked: it is a list of actions, and none of them is a
/// failure.
pub open spec fn is_granted(outcome: Result<Seq<ActionView>, Failure>) -> bool {
    outcome matches Ok(actions) && forall|i: int|
        0 <= i < actions.len() ==> !(#[trigger] actions[i] is Fail)
}

/// The failure under which the host reports `e`.
pub open spec fn custom(e: ExchangeError) -> Failure {
    Failure::Custom(e.spec_code())
}

/// The tokens paid out for `amount` lamports at `rate`: their product, where it fits in 64
/// bits.
pub open spec fn spec_token_amount(amount: u64, rate: u64) -> Option<u64> {
    if amount * rate <= u64::MAX {
        Some((amount * rate) as u64)
    } else {
        None
    }
}

/// The lamports paid out for `amount` tokens at `rate`: the quotient, rounded down.  There
/// is none at rate zero.
pub open spec fn spec_sol_amount(amount: u64, rate: u64) -> Option<u64> {
    if rate == 0 {
        None
    } else {
        Some(amount / rate)
    }
}

/// The checks that both exchange directions make, in order: the user signed, the state
/// account belongs to this program, the record is initialized, and the reserve account is
/// the recorded one.
pub open spec fn spec_validate_accounts(
    program_id: Address,
    user: AccountInfoView,
    exchange_state: AccountInfoView,
    token_account: AccountInfoView,
    state: ExchangeState,
) -> Result<(), Failure> {
    if !user.is_signer {
        Err(Failure::MissingRequiredSignature)
    } else if exchange_state.owner != program_id {
        Err(Failure::IncorrectProgramId)
    } else if !state.is_initialized {
        Err(Failure::UninitializedAccount)
    } else if token_account.key != state.token_account {
        Err(Failure::InvalidAccountData)
    } else {
        Ok(())
    }
}

/// Makes the checks that both exchange directions make, and returns the first that fails.
pub fn validate_accounts(
    program_id: &Address,
    user_info: &AccountInfo,
    exchange_state_info: &AccountInfo,
    token_account_info: &AccountInfo,
    exchange_state: &ExchangeState,
) -> (r: Result<(), Failure>)
    ensures
        r == spec_validate_accounts(
            *program_id,
            user_info@,
            exchange_state_info@,
            token_account_info@,
            *exchange_state,
        ),
{
    if !user_info.is_signer {
        return Err(Failure::MissingRequiredSignature);
    }
    if exchange_state_info.owner != *program_id {
        return Err(Failure::IncorrectProgramId);
    }
    if !exchange_state.is_initialized {
        return Err(Failure::UninitializedAccount);
    }
    if token_account_info.key != exchange_state.token_account {
        return Err(Failure::InvalidAccountData);
    }
    Ok(())
}

/// The instruction processor.
pub struct Processor;

impl Processor {
    /// What [`Processor::process_initialize`] returns.
    ///
    /// Accounts: administrator, state account, token mint, token reserve account, token
    /// program, system program, rent account.
    pub open spec fn spec_process_initialize(
        program_id: Address,
        accounts: Seq<AccountInfoView>,
        rate: u64,
    ) -> Result<Seq<ActionView>, Failure> {
        if accounts.len() < 7 {
            Err(Failure::NotEnoughAccountKeys)
        } else if !accounts[0].is_signer {
            Err(Failure::MissingRequiredSignature)
        } else if rate == 0 {
            Err(custom(ExchangeError::InvalidExchangeRate))
        } else {
            Ok(
                seq![
                    ActionView::CreateAccount {
                        payer: accounts[0].key,
                        account: accounts[1].key,
                        space: 105,
                        owner: program_id,
                        rent: accounts[6].key,
                    },
                    ActionView::Store {
                        account: accounts[1].key,
                        state: ExchangeState {
                            is_initialized: true,
                            admin: accounts[0].key,
                            token_mint: accounts[2].key,
                            token_account: accounts[3].key,
                            rate,
                        },
                    },
                ],
            )
        }
    }

    /// What [`Processor::process_update_rate`] returns.
    ///
    /// Accounts: administrator, state account.
    pub open spec fn spec_process_update_rate(
        program_id: Address,
        accounts: Seq<AccountInfoView>,
        new_rate: u64,
    ) -> Result<Seq<ActionView>, Failure> {
        if accounts.len() < 2 {
            Err(Failure::NotEnoughAccountKeys)
        } else if !accounts[0].is_signer {
            Err(Failure::MissingRequiredSignature)
        } else if new_rate == 0 {
            Err(custom(ExchangeError::InvalidExchangeRate))
        } else if accounts[1].owner != program_id {
            Err(Failure::IncorrectProgramId)
        } else {
            match ExchangeState::spec_unpack(accounts[1].data) {
                Err(e) => Err(e),
                Ok(state) => if state.admin != accounts[0].key {
                    Err(custom(ExchangeError::NotAdmin))
                } else {
                    Ok(
                        seq![
                            ActionView::Store {
                                account: accounts[1].key,
                                state: ExchangeState { rate: new_rate, ..state },
                            },
                        ],
                    )
                },
            }
        }
    }

    /// What [`Processor::process_exchange_sol_to_token`] returns.
    ///
    /// Accounts: user, state account, token reserve account, user's token account, token
    /// program.
    ///
    /// The record is decoded first, whether initialized or not: a state account whose data
    /// is no record fails with `InvalidAccountData`.  The four checks of validation follow
    /// in their order, and then the arithmetic.
    ///
    /// The payment of the lamports is asked for before the transfer of the tokens is built.
    /// Where that transfer cannot be built, because the last account is not the token
    /// program, the list therefore ends in that failure after the payment.
    pub open spec fn spec_process_exchange_sol_to_token(
        program_id: Address,
        accounts: Seq<AccountInfoView>,
        amount: u64,
    ) -> Result<Seq<ActionView>, Failure> {
        if accounts.len() < 5 {
            Err(Failure::NotEnoughAccountKeys)
        } else {
            match ExchangeState::spec_unpack_unchecked(accounts[1].data) {
                Err(e) => Err(e),
                Ok(state) => match spec_validate_accounts(
                    program_id,
                    accounts[0],
                    accounts[1],
                    accounts[2],
                    state,
                ) {
                    Err(e) => Err(e),
                    Ok(_) => match spec_token_amount(amount, state.rate) {
                        None => Err(custom(ExchangeError::ArithmeticOverflow)),
                        Some(token_amount) => Ok(
                            seq![
                                ActionView::Invoke {
                                    instruction: spec_system_transfer(
                                        accounts[0].key,
                                        accounts[1].key,
                                        amount,
                                    ),
                                    accounts: seq![accounts[0].key, accounts[1].key],
                                },
                                match spec_token_transfer(
                                    accounts[4].key,
                                    accounts[2].key,
                                    accounts[3].key,
                                    accounts[1].key,
                                    token_amount,
                                ) {
                                    Some(tokens) => ActionView::Invoke {
                                        instruction: tokens,
                                        accounts: seq![
                                            accounts[2].key,
                                            accounts[3].key,
                                            accounts[1].key,
                                            accounts[4].key,
                                        ],
                                    },
                                    None => ActionView::Fail {
                                        error: Failure::IncorrectProgramId,
                                    },
                                },
                            ],
                        ),
                    },
                },
            }
        }
    }

    /// What [`Processor::process_exchange_token_to_sol`] returns.
    ///
    /// Accounts: user, state account, token reserve account, user's token account, token
    /// program.
    ///
    /// The record is decoded first, whether initialized or not: a state account whose data
    /// is no record fails with `InvalidAccountData`.  The four checks of validation follow
    /// in their order, then the arithmetic, the exchange's own balance, and the token
    /// program's address.
    pub open spec fn spec_process_exchange_token_to_sol(
        program_id: Address,
        accounts: Seq<AccountInfoView>,
        amount: u64,
    ) -> Result<Seq<ActionView>, Failure> {
        if accounts.len() < 5 {
            Err(Failure::NotEnoughAccountKeys)
        } else {
            match ExchangeState::spec_unpack_unchecked(accounts[1].data) {
                Err(e) => Err(e),
                Ok(state) => match spec_validate_accounts(
                    program_id,
                    accounts[0],
                    accounts[1],
                    accounts[2],
                    state,
                ) {
                    Err(e) => Err(e),
                    Ok(_) => match spec_sol_amount(amount, state.rate) {
                        None => Err(custom(ExchangeError::ArithmeticOverflow)),
                        Some(sol_amount) => if accounts[1].lamports < sol_amount {
                            Err(custom(ExchangeError::InsufficientSolBalance))
                        } else {
                            match spec_token_transfer(
                                accounts[4].key,
                                accounts[3].key,
                                accounts[2].key,
                                accounts[0].key,
                                amount,
                            ) {
                                None => Err(Failure::IncorrectProgramId),
                                Some(tokens) => Ok(
                                    seq![
                                        ActionView::Invoke {
                                            instruction: tokens,
                                            accounts: seq![
                                                accounts[3].key,
                                                accounts[2].key,
                                                accounts[0].key,
                                                accounts[4].key,
                                            ],
                                        },
                                        ActionView::MoveLamports {
                                            from: accounts[1].key,
                                            to: accounts[0].key,
                                            lamports: sol_amount,
                                        },
                                    ],
                                ),
                            }
                        },
                    },
                },
            }
        }
    }

    /// What [`Processor::process`] returns: the outcome of the handler that the payload
    /// selects, or `InvalidInstruction` for a payload that selects none.
    pub open spec fn spec_process(
        program_id: Address,
        accounts: Seq<AccountInfoView>,
        instruction_data: Seq<u8>,
    ) -> Result<Seq<ActionView>, Failure> {
        match ExchangeInstruction::spec_try_from_slice(instruction_data) {
            Err(_) => Err(custom(ExchangeError::InvalidInstruction)),
            Ok(ExchangeInstruction::Initialize { rate }) => Self::spec_process_initialize(
                program_id,
                accounts,
                rate,
            ),
            Ok(ExchangeInstruction::UpdateRate { new_rate }) => Self::spec_process_update_rate(
                program_id,
                accounts,
                new_rate,
            ),
            Ok(
                ExchangeInstruction::ExchangeSolToToken { amount },
            ) => Self::spec_process_exchange_sol_to_token(program_id, accounts, amount),
            Ok(
                ExchangeInstruction::ExchangeTokenToSol { amount },
            ) => Self::spec_process_exchange_token_to_sol(program_id, accounts, amount),
        }
    }

    /// Decodes the payload and runs the handler that it selects.
    pub fn process(program_id: &Address, accounts: &[AccountInfo], instruction_data: &[u8]) -> (r:
        Outcome)
        ensures
            outcome_is(
                r,
                Self::spec_process(
                    *program_id,
                    account_views(accounts@),
                    instruction_data@,
                ),
            ),
    {
        let instruction = match ExchangeInstruction::try_from_slice(instruction_data) {
            Ok(instruction) => instruction,
            Err(_) => {
                return Err(Failure::from(ExchangeError::InvalidInstruction));
            },
        };
        match instruction {
            ExchangeInstruction::Initialize { rate } => Self::process_initialize(
                program_id,
                accounts,
                rate,
            ),
            ExchangeInstruction::UpdateRate { new_rate } => Self::process_update_rate(
                program_id,
                accounts,
                new_rate,
            ),
            ExchangeInstruction::ExchangeSolToToken {
                amount,
            } => Self::process_exchange_sol_to_token(program_id, accounts, amount),
            ExchangeInstruction::ExchangeTokenToSol {
                amount,
            } => Self::process_exchange_token_to_sol(program_id, accounts, amount),
        }
    }

    /// Sets up the exchange: asks for the state account to be allocated, owned by this
    /// program and paid for by the administrator at the rent account's terms, and for the
    /// first record to be written.
    pub fn process_initialize(program_id: &Address, accounts: &[AccountInfo], rate: u64) -> (r:
        Outcome)
        ensures
            outcome_is(
                r,
                Self::spec_process_initialize(
                    *program_id,
                    account_views(accounts@),
                    rate,
                ),
            ),
    {
        if accounts.len() < 7 {
            return Err(Failure::NotEnoughAccountKeys);
        }
        let admin_info = &accounts[0];
        let exchange_state_info = &accounts[1];
        let token_mint_info = &accounts[2];
        let token_account_info = &accounts[3];
        let rent_info = &accounts[6];

        if !admin_info.is_signer {
            return Err(Failure::MissingRequiredSignature);
        }
        if rate == 0 {
            return Err(Failure::from(ExchangeError::InvalidExchangeRate));
        }
        let exchange_state = ExchangeState {
            is_initialized: true,
            admin: admin_info.key,
            token_mint: token_mint_info.key,
            token_account: token_account_info.key,
            rate,
        };
        let mut actions: Vec<Action> = Vec::new();
        actions.push(
            Action::CreateAccount {
                payer: admin_info.key,
                account: exchange_state_info.key,
                space: 105,
                owner: *program_id,
                rent: rent_info.key,
            },
        );
        actions.push(Action::Store { account: exchange_state_info.key, state: exchange_state });
        assert(action_views(actions@) =~= Self::spec_process_initialize(
            *program_id,
            account_views(accounts@),
            rate,
        )->Ok_0);
        Ok(actions)
    }

    /// Changes the rate, for the recorded administrator only.
    pub fn process_update_rate(program_id: &Address, accounts: &[AccountInfo], new_rate: u64) -> (r:
        Outcome)
        ensures
            outcome_is(
                r,
                Self::spec_process_update_rate(
                    *program_id,
                    account_views(accounts@),
                    new_rate,
                ),
            ),
    {
        if accounts.len() < 2 {
            return Err(Failure::NotEnoughAccountKeys);
        }
        let admin_info = &accounts[0];
        let exchange_state_info = &accounts[1];

        if !admin_info.is_signer {
            return Err(Failure::MissingRequiredSignature);
        }
        if new_rate == 0 {
            return Err(Failure::from(ExchangeError::InvalidExchangeRate));
        }
        if exchange_state_info.owner != *program_id {
            return Err(Failure::IncorrectProgramId);
        }
        let mut exchange_state = match ExchangeState::unpack(exchange_state_info.data.as_slice()) {
            Ok(state) => state,
            Err(e) => {
                return Err(e);
            },
        };
        if exchange_state.admin != admin_info.key {
            return Err(Failure::from(ExchangeError::NotAdmin));
        }
        exchange_state.rate = new_rate;
        let mut actions: Vec<Action> = Vec::new();
        actions.push(Action::Store { account: exchange_state_info.key, state: exchange_state });
        assert(action_views(actions@) =~= Self::spec_process_update_rate(
            *program_id,
            account_views(accounts@),
            new_rate,
        )->Ok_0);
        Ok(actions)
    }

    /// Converts `amount` lamports of the user into tokens from the reserve.
    pub fn process_exchange_sol_to_token(
        program_id: &Address,
        accounts: &[AccountInfo],
        amount: u64,
    ) -> (r: Outcome)
        ensures
            outcome_is(
                r,
                Self::spec_process_exchange_sol_to_token(
                    *program_id,
                    account_views(accounts@),
                    amount,
                ),
            ),
    {
        if accounts.len() < 5 {
            return Err(Failure::NotEnoughAccountKeys);
        }
        let user_info = &accounts[0];
        let exchange_state_info = &accounts[1];
        let token_account_info = &accounts[2];
        let user_token_account_info = &accounts[3];
        let token_program_info = &accounts[4];

        let exchange_state = match ExchangeState::unpack_unchecked(
            exchange_state_info.data.as_slice(),
        ) {
            Ok(state) => state,
            Err(e) => {
                return Err(e);
            },
        };
        match validate_accounts(
            program_id,
            user_info,
            exchange_state_info,
            token_account_info,
            &exchange_state,
        ) {
            Ok(_) => {},
            Err(e) => {
                return Err(e);
            },
        }
        let token_amount: u64 = match amount.checked_mul(exchange_state.rate) {
            Some(token_amount) => token_amount,
            None => {
                return Err(Failure::from(ExchangeError::ArithmeticOverflow));
            },
        };
        let pay = system_transfer(&user_info.key, &exchange_state_info.key, amount);
        let mut pay_accounts: Vec<Address> = Vec::new();
        pay_accounts.push(user_info.key);
        pay_accounts.push(exchange_state_info.key);
        let mut actions: Vec<Action> = Vec::new();
        actions.push(Action::Invoke { instruction: pay, accounts: pay_accounts });
        match token_transfer(
            &token_program_info.key,
            &token_account_info.key,
            &user_token_account_info.key,
            &exchange_state_info.key,
            token_amount,
        ) {
            Ok(tokens) => {
                let mut token_accounts: Vec<Address> = Vec::new();
                token_accounts.push(token_account_info.key);
                token_accounts.push(user_token_account_info.key);
                token_accounts.push(exchange_state_info.key);
                token_accounts.push(token_program_info.key);
                actions.push(Action::Invoke { instruction: tokens, accounts: token_accounts });
            },
            Err(_) => {
                actions.push(Action::Fail { error: Failure::IncorrectProgramId });
            },
        }
        proof {
            let want = Self::spec_process_exchange_sol_to_token(
                *program_id,
                account_views(accounts@),
                amount,
            )->Ok_0;
            assert(actions@[0]@->Invoke_accounts =~= want[0]->Invoke_accounts);
            if actions@[1]@ is Invoke {
                assert(actions@[1]@->Invoke_accounts =~= want[1]->Invoke_accounts);
            }
            assert(action_views(actions@) =~= want);
        }
        Ok(actions)
    }

    /// Converts `amount` tokens of the user into lamports from the exchange's own balance.
    pub fn process_exchange_token_to_sol(
        program_id: &Address,
        accounts: &[AccountInfo],
        amount: u64,
    ) -> (r: Outcome)
        ensures
            outcome_is(
                r,
                Self::spec_process_exchange_token_to_sol(
                    *program_id,
                    account_views(accounts@),
                    amount,
                ),
            ),
    {
        if accounts.len() < 5 {
            return Err(Failure::NotEnoughAccountKeys);
        }
        let user_info = &accounts[0];
        let exchange_state_info = &accounts[1];
        let token_account_info = &accounts[2];
        let user_token_account_info = &accounts[3];
        let token_program_info = &accounts[4];

        let exchange_state = match ExchangeState::unpack_unchecked(
            exchange_state_info.data.as_slice(),
        ) {
            Ok(state) => state,
            Err(e) => {
                return Err(e);
            },
        };
        match validate_accounts(
            program_id,
            user_info,
            exchange_state_info,
            token_account_info,
            &exchange_state,
        ) {
            Ok(_) => {},
            Err(e) => {
                return Err(e);
            },
        }
        let sol_amount: u64 = match amount.checked_div(exchange_state.rate) {
            Some(sol_amount) => sol_amount,
            None => {
                return Err(Failure::from(ExchangeError::ArithmeticOverflow));
            },
        };
        if exchange_state_info.lamports < sol_amount {
            return Err(Failure::from(ExchangeError::InsufficientSolBalance));
        }
        let tokens = match token_transfer(
            &token_program_info.key,
            &user_token_account_info.key,
            &token_account_info.key,
            &user_info.key,
            amount,
        ) {
            Ok(tokens) => tokens,
            Err(_) => {
                return Err(Failure::IncorrectProgramId);
            },
        };
        let mut token_accounts: Vec<Address> = Vec::new();
        token_accounts.push(user_token_account_info.key);
        token_accounts.push(token_account_info.key);
        token_accounts.push(user_info.key);
        token_accounts.push(token_program_info.key);
        let mut actions: Vec<Action> = Vec::new();
        actions.push(Action::Invoke { instruction: tokens, accounts: token_accounts });
        actions.push(
            Action::MoveLamports {
                from: exchange_state_info.key,
                to: user_info.key,
                lamports: sol_amount,
            },
        );
        proof {
            let want = Self::spec_process_exchange_token_to_sol(
                *program_id,
                account_views(accounts@),
                amount,
            )->Ok_0;
            assert(actions@[0]@->Invoke_accounts =~= want[0]->Invoke_accounts);
            assert(action_views(actions@) =~= want);
        }
        Ok(actions)
    }
}

} // verus!
