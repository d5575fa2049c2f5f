//! What holds of the exchange, whatever the accounts and amounts.

use crate::account::AccountInfoView;
use crate::action::{spec_system_transfer, spec_token_transfer, ActionView};
use crate::address::{system_program_id, token_program_id, Address};
use crate::error::{ExchangeError, Failure};
use crate::instruction::ExchangeInstruction;
use crate::ledger::{Balances, Transfer};
use crate::processor::{
    custom, is_granted, spec_sol_amount, spec_token_amount, spec_validate_accounts, Processor,
};
use crate::state::ExchangeState;
use vstd::prelude::*;

verus! {

/// The system program's transfer instruction asks for exactly the transfer it was built
/// for.
pub proof fn lemma_system_transfer_meaning(
    from: Address,
    to: Address,
    lamports: u64,
    accounts: Seq<Address>,
)
    ensures
        (ActionView::Invoke {
            instruction: spec_system_transfer(from, to, lamports),
            accounts,
        }).spec_transfer() == Some(Transfer::Native { from, to, lamports }),
{
    vstd::bytes::lemma_auto_spec_u64_to_from_le_bytes();
    let data = spec_system_transfer(from, to, lamports).data;
    assert(data.subrange(4, 12) =~= vstd::bytes::spec_u64_to_le_bytes(lamports));
}

/// The token program's transfer instruction asks for exactly the transfer it was built
/// for.
pub proof fn lemma_token_transfer_meaning(
    source: Address,
    destination: Address,
    authority: Address,
    amount: u64,
    accounts: Seq<Address>,
)
    ensures
        spec_token_transfer(token_program_id(), source, destination, authority, amount) is Some,
        (ActionView::Invoke {
            instruction: spec_token_transfer(
                token_program_id(),
                source,
                destination,
                authority,
                amount,
            )->Some_0,
            accounts,
        }).spec_transfer() == Some(Transfer::Token { source, destination, authority, amount }),
{
    vstd::bytes::lemma_auto_spec_u64_to_from_le_bytes();
    let data = spec_token_transfer(
        token_program_id(),
        source,
        destination,
        authority,
        amount,
    )->Some_0.data;
    assert(data.subrange(1, 9) =~= vstd::bytes::spec_u64_to_le_bytes(amount));
    assert(system_program_id().bytes[1] != token_program_id().bytes[1]);
}

/// Exchanging native currency for tokens, between a user and an exchange that are two
/// accounts, and between two token accounts: the host carries the exchange out exactly when
/// the user holds `amount` lamports and the reserve holds `amount * rate` tokens.  The user
/// then holds `amount` lamports less and `amount * rate` tokens more, the exchange holds
/// `amount` lamports more, the reserve `amount * rate` tokens less, and no other balance
/// has changed.
pub proof fn law_exchange_sol_to_token(
    program_id: Address,
    accounts: Seq<AccountInfoView>,
    amount: u64,
    before: Balances,
)
    requires
        is_granted(Processor::spec_process_exchange_sol_to_token(program_id, accounts, amount)),
        accounts[0].key != accounts[1].key,
        accounts[2].key != accounts[3].key,
    ensures
        ({
            let user = accounts[0].key;
            let exchange = accounts[1].key;
            let reserve = accounts[2].key;
            let user_tokens = accounts[3].key;
            let rate = ExchangeState::spec_unpack(accounts[1].data)->Ok_0.rate;
            let actions = Processor::spec_process_exchange_sol_to_token(
                program_id,
                accounts,
                amount,
            )->Ok_0;
            let after = before.spec_settle(actions);
            &&& amount * rate <= u64::MAX
            &&& after is Some <==> before.native_of(user) >= amount && before.token_of(reserve)
                >= amount * rate
            &&& after matches Some(after) ==> {
                &&& after.native_of(user) == before.native_of(user) - amount
                &&& after.native_of(exchange) == before.native_of(exchange) + amount
                &&& after.token_of(user_tokens) == before.token_of(user_tokens) + amount * rate
                &&& after.token_of(reserve) == before.token_of(reserve) - amount * rate
                &&& forall|a: Address|
                    a != user && a != exchange ==> after.native_of(a) == before.native_of(a)
                &&& forall|a: Address|
                    a != reserve && a != user_tokens ==> after.token_of(a) == before.token_of(a)
            }
        }),
{
    let state = ExchangeState::spec_unpack(accounts[1].data)->Ok_0;
    let tokens = spec_token_amount(amount, state.rate)->Some_0;
    let actions = Processor::spec_process_exchange_sol_to_token(program_id, accounts, amount)->Ok_0;
    assert(!(actions[1] is Fail));
    lemma_system_transfer_meaning(
        accounts[0].key,
        accounts[1].key,
        amount,
        actions[0]->Invoke_accounts,
    );
    lemma_token_transfer_meaning(
        accounts[2].key,
        accounts[3].key,
        accounts[1].key,
        tokens,
        actions[1]->Invoke_accounts,
    );
    lemma_settle_two(before, actions);
}

/// Exchanging tokens for native currency, between a user and an exchange that are two
/// accounts, and between two token accounts: the user is paid `amount / rate` lamports,
/// rounded down, which the exchange was shown to hold.  The host carries the exchange out
/// exactly when the user holds `amount` tokens and the exchange holds the payment.  The
/// user then holds `amount` tokens less and the reserve as many more, the user holds the
/// payment more and the exchange as much less, and no other balance has changed.  An amount
/// below the rate pays nothing: the tokens still move, and every native balance stays as it
/// was.
pub proof fn law_exchange_token_to_sol(
    program_id: Address,
    accounts: Seq<AccountInfoView>,
    amount: u64,
    before: Balances,
)
    requires
        is_granted(Processor::spec_process_exchange_token_to_sol(program_id, accounts, amount)),
        accounts[0].key != accounts[1].key,
        accounts[2].key != accounts[3].key,
    ensures
        ({
            let user = accounts[0].key;
            let exchange = accounts[1].key;
            let reserve = accounts[2].key;
            let user_tokens = accounts[3].key;
            let rate = ExchangeState::spec_unpack(accounts[1].data)->Ok_0.rate;
            let paid = amount as int / rate as int;
            let actions = Processor::spec_process_exchange_token_to_sol(
                program_id,
                accounts,
                amount,
            )->Ok_0;
            let after = before.spec_settle(actions);
            &&& rate > 0
            &&& actions[1] == (ActionView::MoveLamports {
                from: exchange,
                to: user,
                lamports: paid as u64,
            })
            &&& amount < rate ==> paid == 0
            &&& accounts[1].lamports >= paid
            &&& after is Some <==> before.token_of(user_tokens) >= amount && before.native_of(
                exchange,
            ) >= paid
            &&& after matches Some(after) ==> {
                &&& after.token_of(user_tokens) == before.token_of(user_tokens) - amount
                &&& after.token_of(reserve) == before.token_of(reserve) + amount
                &&& after.native_of(user) == before.native_of(user) + paid
                &&& after.native_of(exchange) == before.native_of(exchange) - paid
                &&& forall|a: Address|
                    a != user && a != exchange ==> after.native_of(a) == before.native_of(a)
                &&& forall|a: Address|
                    a != reserve && a != user_tokens ==> after.token_of(a) == before.token_of(a)
                &&& amount < rate ==> forall|a: Address|
                    after.native_of(a) == before.native_of(a)
            }
        }),
{
    let state = ExchangeState::spec_unpack(accounts[1].data)->Ok_0;
    let actions = Processor::spec_process_exchange_token_to_sol(program_id, accounts, amount)->Ok_0;
    lemma_token_transfer_meaning(
        accounts[3].key,
        accounts[2].key,
        accounts[0].key,
        amount,
        actions[0]->Invoke_accounts,
    );
    lemma_settle_two(before, actions);
    if amount < state.rate {
        assert(amount as int / state.rate as int == 0) by (nonlinear_arith)
            requires
                0 <= amount < state.rate,
        ;
    }
}

/// The rate arithmetic loses nothing on the way out and back: `x` lamports buy `x * rate`
/// tokens where that fits in 64 bits, and those tokens buy `x` lamports again.
pub proof fn law_round_trip_amount(x: u64, rate: u64)
    requires
        rate > 0,
        x * rate <= u64::MAX,
    ensures
        spec_token_amount(x, rate) == Some((x * rate) as u64),
        spec_sol_amount((x * rate) as u64, rate) == Some(x),
{
    assert((x * rate) / (rate as int) == x) by (nonlinear_arith)
        requires
            rate > 0,
            x >= 0,
    ;
}

/// A user who exchanges `x` lamports for tokens and at once exchanges those tokens back is
/// paid `x` lamports, and every balance is again what it was before the two exchanges.
/// This is stated for the case that the first exchange is carried out, at a nonzero rate;
/// `back` is what the second handler is shown: the same accounts, the user's signature,
/// and an exchange that holds the lamports that the first exchange paid in.
pub proof fn law_round_trip(
    program_id: Address,
    accounts: Seq<AccountInfoView>,
    back: Seq<AccountInfoView>,
    x: u64,
    before: Balances,
)
    requires
        is_granted(Processor::spec_process_exchange_sol_to_token(program_id, accounts, x)),
        ExchangeState::spec_unpack(accounts[1].data)->Ok_0.rate > 0,
        before.spec_settle(
            Processor::spec_process_exchange_sol_to_token(program_id, accounts, x)->Ok_0,
        ) is Some,
        back.len() == accounts.len(),
        forall|i: int| 0 <= i < 5 ==> back[i].key == accounts[i].key,
        back[0].is_signer,
        back[1].owner == accounts[1].owner,
        back[1].data == accounts[1].data,
        back[1].lamports >= x,
    ensures
        ({
            let rate = ExchangeState::spec_unpack(accounts[1].data)->Ok_0.rate;
            let tokens = (x * rate) as u64;
            let there = Processor::spec_process_exchange_sol_to_token(program_id, accounts, x)->Ok_0;
            let between = before.spec_settle(there)->Some_0;
            let outcome = Processor::spec_process_exchange_token_to_sol(program_id, back, tokens);
            &&& is_granted(outcome)
            &&& outcome->Ok_0[1] == (ActionView::MoveLamports {
                from: accounts[1].key,
                to: accounts[0].key,
                lamports: x,
            })
            &&& between.spec_settle(outcome->Ok_0) matches Some(after) && forall|a: Address|
                after.native_of(a) == before.native_of(a) && after.token_of(a) == before.token_of(
                    a,
                )
        }),
{
    let rate = ExchangeState::spec_unpack(accounts[1].data)->Ok_0.rate;
    let tokens = (x * rate) as u64;
    law_round_trip_amount(x, rate);
    let there = Processor::spec_process_exchange_sol_to_token(program_id, accounts, x)->Ok_0;
    assert(!(there[1] is Fail));
    lemma_system_transfer_meaning(accounts[0].key, accounts[1].key, x, there[0]->Invoke_accounts);
    lemma_token_transfer_meaning(
        accounts[2].key,
        accounts[3].key,
        accounts[1].key,
        tokens,
        there[1]->Invoke_accounts,
    );
    lemma_settle_two(before, there);
    let outcome = Processor::spec_process_exchange_token_to_sol(program_id, back, tokens);
    lemma_token_transfer_meaning(
        accounts[3].key,
        accounts[2].key,
        accounts[0].key,
        tokens,
        outcome->Ok_0[0]->Invoke_accounts,
    );
    lemma_settle_two(before.spec_settle(there)->Some_0, outcome->Ok_0);
}

/// Validation comes in a fixed order.  Whichever way an exchange goes, with its five
/// accounts: a state account whose data is no record, initialized or not, is refused as
/// `InvalidAccountData`; else a user who did not sign as `MissingRequiredSignature`; else
/// a state account of another program as `IncorrectProgramId`; else a record that is not
/// initialized as `UninitializedAccount`; else a reserve account other than the recorded
/// one as `InvalidAccountData`.  Nothing else is refused by validation.
pub proof fn law_exchange_checks_in_order(
    program_id: Address,
    accounts: Seq<AccountInfoView>,
    amount: u64,
)
    requires
        accounts.len() >= 5,
    ensures
        ({
            let record = ExchangeState::spec_unpack_unchecked(accounts[1].data);
            let there = Processor::spec_process_exchange_sol_to_token(program_id, accounts, amount);
            let back = Processor::spec_process_exchange_token_to_sol(program_id, accounts, amount);
            let refused = |failure: Failure|
                there == Err::<Seq<ActionView>, Failure>(failure) && back == Err::<
                    Seq<ActionView>,
                    Failure,
                >(failure);
            if record is Err {
                refused(Failure::InvalidAccountData)
            } else if !accounts[0].is_signer {
                refused(Failure::MissingRequiredSignature)
            } else if accounts[1].owner != program_id {
                refused(Failure::IncorrectProgramId)
            } else if !record->Ok_0.is_initialized {
                refused(Failure::UninitializedAccount)
            } else if accounts[2].key != record->Ok_0.token_account {
                refused(Failure::InvalidAccountData)
            } else {
                spec_validate_accounts(
                    program_id,
                    accounts[0],
                    accounts[1],
                    accounts[2],
                    record->Ok_0,
                ) == Ok::<(), Failure>(())
            }
        }),
{
}

/// After validation, at a nonzero rate, an exchange of tokens for native currency is
/// decided by the exchange's balance and then by the token program's address: an exchange
/// that holds less than the payment refuses as `InsufficientSolBalance` and asks for no
/// transfer; else a fifth account that is not the token program is refused as
/// `IncorrectProgramId`; else the exchange is granted.
pub proof fn law_payment_needs_funds(
    program_id: Address,
    accounts: Seq<AccountInfoView>,
    amount: u64,
)
    requires
        accounts.len() >= 5,
        ExchangeState::spec_unpack_unchecked(accounts[1].data) matches Ok(record)
            && record.rate > 0 && spec_validate_accounts(
            program_id,
            accounts[0],
            accounts[1],
            accounts[2],
            record,
        ) is Ok,
    ensures
        ({
            let rate = ExchangeState::spec_unpack_unchecked(accounts[1].data)->Ok_0.rate;
            let back = Processor::spec_process_exchange_token_to_sol(program_id, accounts, amount);
            if accounts[1].lamports < amount as int / rate as int {
                back == Err::<Seq<ActionView>, Failure>(
                    custom(ExchangeError::InsufficientSolBalance),
                )
            } else if accounts[4].key != token_program_id() {
                back == Err::<Seq<ActionView>, Failure>(Failure::IncorrectProgramId)
            } else {
                is_granted(back)
            }
        }),
{
}

/// No exchange is granted without validation.  Whichever way it goes, an exchange that is
/// granted was asked for by a user who signed, against a state account of this program
/// that holds an initialized record, with the reserve account that the record names, and
/// through the token program.  An exchange of tokens for native currency is granted only
/// where the exchange holds the payment.
pub proof fn law_exchange_is_validated(
    program_id: Address,
    accounts: Seq<AccountInfoView>,
    amount: u64,
)
    requires
        is_granted(Processor::spec_process_exchange_sol_to_token(program_id, accounts, amount))
            || is_granted(
            Processor::spec_process_exchange_token_to_sol(program_id, accounts, amount),
        ),
    ensures
        accounts.len() >= 5,
        accounts[0].is_signer,
        accounts[1].owner == program_id,
        accounts[1].data.len() == 105,
        ExchangeState::spec_unpack(accounts[1].data) matches Ok(record) && record.is_initialized
            && record.token_account == accounts[2].key,
        accounts[4].key == token_program_id(),
        is_granted(Processor::spec_process_exchange_token_to_sol(program_id, accounts, amount))
            ==> accounts[1].lamports >= amount as int / ExchangeState::spec_unpack(
            accounts[1].data,
        )->Ok_0.rate as int,
{
    let there = Processor::spec_process_exchange_sol_to_token(program_id, accounts, amount);
    if is_granted(there) {
        assert(!(there->Ok_0[1] is Fail));
    }
}

/// The rate is guarded.  A request to set it to zero, signed and with its two accounts, is
/// refused as `InvalidExchangeRate`; a request for a nonzero rate on this program's
/// initialized record, signed by another than the recorded administrator, is refused as
/// `NotAdmin`.  A refusal asks nothing of the host, so the record stays as it was.  A
/// request that is granted asks for one thing only: to store the record with the new rate
/// and every other field as before.
pub proof fn law_update_rate_guarded(
    program_id: Address,
    accounts: Seq<AccountInfoView>,
    new_rate: u64,
)
    requires
        accounts.len() >= 2,
        accounts[0].is_signer,
    ensures
        ({
            let outcome = Processor::spec_process_update_rate(program_id, accounts, new_rate);
            let record = ExchangeState::spec_unpack(accounts[1].data);
            &&& new_rate == 0 ==> outcome == Err::<Seq<ActionView>, Failure>(
                custom(ExchangeError::InvalidExchangeRate),
            )
            &&& new_rate != 0 && accounts[1].owner == program_id && record is Ok
                && record->Ok_0.admin != accounts[0].key ==> outcome == Err::<
                Seq<ActionView>,
                Failure,
            >(custom(ExchangeError::NotAdmin))
            &&& outcome matches Ok(actions) ==> {
                &&& new_rate > 0
                &&& record matches Ok(old)
                &&& old.admin == accounts[0].key
                &&& actions == seq![
                    ActionView::Store {
                        account: accounts[1].key,
                        state: ExchangeState {
                            is_initialized: true,
                            admin: old.admin,
                            token_mint: old.token_mint,
                            token_account: old.token_account,
                            rate: new_rate,
                        },
                    },
                ]
            }
        }),
{
}

/// Setting the rate twice to one value is setting it once.  After a granted request has
/// been carried out, so that the state account holds the record that was stored, the same
/// request is granted again and asks for the same record to be stored.
pub proof fn law_update_rate_idempotent(
    program_id: Address,
    accounts: Seq<AccountInfoView>,
    again: Seq<AccountInfoView>,
    new_rate: u64,
)
    requires
        Processor::spec_process_update_rate(program_id, accounts, new_rate) is Ok,
        again.len() >= 2,
        again[0] == accounts[0],
        again[1].key == accounts[1].key,
        again[1].owner == accounts[1].owner,
        Processor::spec_process_update_rate(program_id, accounts, new_rate)->Ok_0[0]
            matches ActionView::Store { state, .. } && again[1].data == state.spec_packed(),
    ensures
        Processor::spec_process_update_rate(program_id, again, new_rate)
            == Processor::spec_process_update_rate(program_id, accounts, new_rate),
{
    let stored = Processor::spec_process_update_rate(
        program_id,
        accounts,
        new_rate,
    )->Ok_0[0]->Store_state;
    stored.law_unpack_packed(Seq::empty());
    stored.lemma_packed_len();
}

/// Initialization with rate zero fails, and asks the host for nothing: no account is
/// allocated and no record is written.  With its seven accounts and the administrator's
/// signature, the failure is `InvalidExchangeRate`.
pub proof fn law_initialize_rejects_zero_rate(program_id: Address, accounts: Seq<AccountInfoView>)
    ensures
        Processor::spec_process_initialize(program_id, accounts, 0) is Err,
        accounts.len() >= 7 && accounts[0].is_signer ==> Processor::spec_process_initialize(
            program_id,
            accounts,
            0,
        ) == Err::<Seq<ActionView>, Failure>(custom(ExchangeError::InvalidExchangeRate)),
{
}

/// Whatever record the processor asks the host to store is initialized and has a nonzero
/// rate; and no instruction but `Initialize` and `UpdateRate` asks for a record to be
/// stored.
pub proof fn law_stored_rate_is_positive(
    program_id: Address,
    accounts: Seq<AccountInfoView>,
    instruction_data: Seq<u8>,
    i: int,
)
    requires
        Processor::spec_process(program_id, accounts, instruction_data) is Ok,
        0 <= i < Processor::spec_process(program_id, accounts, instruction_data)->Ok_0.len(),
    ensures
        ({
            let action = Processor::spec_process(program_id, accounts, instruction_data)->Ok_0[i];
            action matches ActionView::Store { account, state } ==> {
                &&& state.is_initialized
                &&& state.rate > 0
                &&& state.well_formed()
                &&& account == accounts[1].key
                &&& ExchangeInstruction::spec_try_from_slice(instruction_data)->Ok_0.spec_tag()
                    <= 1
            }
        }),
{
}

/// A list that holds a failure has no effect on any balance.
pub proof fn law_failure_settles_nothing(before: Balances, actions: Seq<ActionView>, i: int)
    requires
        0 <= i < actions.len(),
        actions[i] is Fail,
    ensures
        before.spec_settle(actions) is None,
    decreases actions.len(),
{
    if i > 0 {
        match actions[0].spec_transfer() {
            Some(transfer) => match before.spec_apply(transfer) {
                Some(next) => {
                    law_failure_settles_nothing(next, actions.drop_first(), i - 1);
                },
                None => {},
            },
            None => {},
        }
    }
}

/// Settling a list of two actions is carrying out the first and then the second.
pub proof fn lemma_settle_two(before: Balances, actions: Seq<ActionView>)
    requires
        actions.len() == 2,
    ensures
        before.spec_settle(actions) == match actions[0].spec_transfer() {
            None => None,
            Some(first) => match before.spec_apply(first) {
                None => None,
                Some(between) => match actions[1].spec_transfer() {
                    None => None,
                    Some(second) => between.spec_apply(second),
                },
            },
        },
{
    reveal_with_fuel(Balances::spec_settle, 4);
    let rest = actions.drop_first();
    assert(rest.len() == 1);
    assert(rest[0] == actions[1]);
    assert(rest.drop_first().len() == 0);
}

} // verus!
