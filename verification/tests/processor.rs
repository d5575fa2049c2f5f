use token_exchange::account::AccountInfo;
use token_exchange::action::{AccountMeta, Action, Instruction};
use token_exchange::address::{system_program_id, token_program_id, Address};
use token_exchange::error::{ExchangeError, Failure};
use token_exchange::instruction::ExchangeInstruction;
use token_exchange::processor::{validate_accounts, Processor};
use token_exchange::state::ExchangeState;

fn key(n: u8) -> Address {
    Address::new([n; 32])
}

const PROGRAM: u8 = 10;
const ADMIN: u8 = 11;
const STATE: u8 = 12;
const MINT: u8 = 13;
const RESERVE: u8 = 14;
const USER: u8 = 15;
const USER_TOKENS: u8 = 16;
const RENT: u8 = 17;

fn account(n: u8, is_signer: bool) -> AccountInfo {
    AccountInfo {
        key: key(n),
        is_signer,
        lamports: 0,
        data: Vec::new(),
        owner: system_program_id(),
    }
}

fn program(address: Address) -> AccountInfo {
    AccountInfo { key: address, is_signer: false, lamports: 1, data: Vec::new(), owner: key(0) }
}

fn record(rate: u64) -> ExchangeState {
    ExchangeState {
        is_initialized: true,
        admin: key(ADMIN),
        token_mint: key(MINT),
        token_account: key(RESERVE),
        rate,
    }
}

fn state_account(state: ExchangeState, lamports: u64) -> AccountInfo {
    let mut data = vec![0u8; ExchangeState::LEN];
    ExchangeState::pack(state, &mut data).unwrap();
    AccountInfo { key: key(STATE), is_signer: false, lamports, data, owner: key(PROGRAM) }
}

fn initialize_accounts() -> Vec<AccountInfo> {
    vec![
        account(ADMIN, true),
        account(STATE, true),
        account(MINT, false),
        account(RESERVE, false),
        program(token_program_id()),
        program(system_program_id()),
        account(RENT, false),
    ]
}

fn update_accounts(rate: u64) -> Vec<AccountInfo> {
    vec![account(ADMIN, true), state_account(record(rate), 0)]
}

fn exchange_accounts(rate: u64, lamports: u64) -> Vec<AccountInfo> {
    vec![
        account(USER, true),
        state_account(record(rate), lamports),
        account(RESERVE, false),
        account(USER_TOKENS, false),
        program(token_program_id()),
    ]
}

fn le(amount: u64) -> Vec<u8> {
    amount.to_le_bytes().to_vec()
}

fn pay(from: u8, to: u8, lamports: u64) -> Action {
    let mut data = vec![2, 0, 0, 0];
    data.extend(le(lamports));
    Action::Invoke {
        instruction: Instruction {
            program_id: system_program_id(),
            accounts: vec![
                AccountMeta { pubkey: key(from), is_signer: true, is_writable: true },
                AccountMeta { pubkey: key(to), is_signer: false, is_writable: true },
            ],
            data,
        },
        accounts: vec![key(from), key(to)],
    }
}

fn move_tokens(source: u8, destination: u8, authority: u8, amount: u64) -> Action {
    let mut data = vec![3];
    data.extend(le(amount));
    Action::Invoke {
        instruction: Instruction {
            program_id: token_program_id(),
            accounts: vec![
                AccountMeta { pubkey: key(source), is_signer: false, is_writable: true },
                AccountMeta { pubkey: key(destination), is_signer: false, is_writable: true },
                AccountMeta { pubkey: key(authority), is_signer: true, is_writable: false },
            ],
            data,
        },
        accounts: vec![key(source), key(destination), key(authority), token_program_id()],
    }
}

fn custom(e: ExchangeError) -> Failure {
    Failure::Custom(e.code())
}

#[test]
fn initialize_allocates_then_stores() {
    let outcome = Processor::process_initialize(&key(PROGRAM), &initialize_accounts(), 100);
    assert_eq!(
        outcome,
        Ok(vec![
            Action::CreateAccount {
                payer: key(ADMIN),
                account: key(STATE),
                space: 105,
                owner: key(PROGRAM),
                rent: key(RENT),
            },
            Action::Store { account: key(STATE), state: record(100) },
        ])
    );
}

#[test]
fn initialize_through_its_payload() {
    let data = ExchangeInstruction::Initialize { rate: 7 }.to_vec();
    let outcome = Processor::process(&key(PROGRAM), &initialize_accounts(), &data).unwrap();
    assert_eq!(outcome.len(), 2);
    assert_eq!(outcome[1], Action::Store { account: key(STATE), state: record(7) });
}

#[test]
fn initialize_with_zero_rate_asks_for_nothing() {
    assert_eq!(
        Processor::process_initialize(&key(PROGRAM), &initialize_accounts(), 0),
        Err(custom(ExchangeError::InvalidExchangeRate))
    );
    let data = ExchangeInstruction::Initialize { rate: 0 }.to_vec();
    assert_eq!(
        Processor::process(&key(PROGRAM), &initialize_accounts(), &data),
        Err(Failure::Custom(2))
    );
}

#[test]
fn initialize_needs_the_admin_signature() {
    let mut accounts = initialize_accounts();
    accounts[0].is_signer = false;
    assert_eq!(
        Processor::process_initialize(&key(PROGRAM), &accounts, 100),
        Err(Failure::MissingRequiredSignature)
    );
    assert_eq!(
        Processor::process_initialize(&key(PROGRAM), &accounts, 0),
        Err(Failure::MissingRequiredSignature)
    );
}

#[test]
fn initialize_needs_seven_accounts() {
    let mut accounts = initialize_accounts();
    accounts.pop();
    assert_eq!(
        Processor::process_initialize(&key(PROGRAM), &accounts, 100),
        Err(Failure::NotEnoughAccountKeys)
    );
    assert_eq!(
        Processor::process_initialize(&key(PROGRAM), &[], 0),
        Err(Failure::NotEnoughAccountKeys)
    );
}

#[test]
fn malformed_payload_is_an_invalid_instruction() {
    let accounts = initialize_accounts();
    for data in [&[][..], &[9][..], &[4, 0, 0, 0, 0, 0, 0, 0, 0][..], &[0, 1, 2][..]] {
        assert_eq!(
            Processor::process(&key(PROGRAM), &accounts, data),
            Err(custom(ExchangeError::InvalidInstruction))
        );
    }
    assert_eq!(
        Processor::process(&key(PROGRAM), &accounts, &[0, 1, 0, 0, 0, 0, 0, 0, 0, 0]),
        Err(Failure::Custom(0))
    );
}

#[test]
fn update_rate_stores_only_a_new_rate() {
    let outcome = Processor::process_update_rate(&key(PROGRAM), &update_accounts(100), 250);
    assert_eq!(outcome, Ok(vec![Action::Store { account: key(STATE), state: record(250) }]));
}

#[test]
fn update_rate_twice_with_one_value_is_the_same_request() {
    let first = Processor::process_update_rate(&key(PROGRAM), &update_accounts(100), 250);
    let second = Processor::process_update_rate(&key(PROGRAM), &update_accounts(250), 250);
    assert_eq!(first, second);
}

#[test]
fn update_rate_through_its_payload() {
    let data = ExchangeInstruction::UpdateRate { new_rate: 3 }.to_vec();
    assert_eq!(
        Processor::process(&key(PROGRAM), &update_accounts(100), &data),
        Ok(vec![Action::Store { account: key(STATE), state: record(3) }])
    );
}

#[test]
fn update_rate_by_another_signer_is_not_admin() {
    let mut accounts = update_accounts(100);
    accounts[0].key = key(USER);
    assert_eq!(
        Processor::process_update_rate(&key(PROGRAM), &accounts, 250),
        Err(custom(ExchangeError::NotAdmin))
    );
    assert_eq!(custom(ExchangeError::NotAdmin), Failure::Custom(1));
}

#[test]
fn update_rate_to_zero_is_refused() {
    assert_eq!(
        Processor::process_update_rate(&key(PROGRAM), &update_accounts(100), 0),
        Err(custom(ExchangeError::InvalidExchangeRate))
    );
}

#[test]
fn update_rate_checks_in_order() {
    let mut accounts = update_accounts(100);
    accounts[0].is_signer = false;
    accounts[1].owner = key(USER);
    assert_eq!(
        Processor::process_update_rate(&key(PROGRAM), &accounts, 0),
        Err(Failure::MissingRequiredSignature)
    );
    accounts[0].is_signer = true;
    assert_eq!(
        Processor::process_update_rate(&key(PROGRAM), &accounts, 0),
        Err(custom(ExchangeError::InvalidExchangeRate))
    );
    assert_eq!(
        Processor::process_update_rate(&key(PROGRAM), &accounts, 5),
        Err(Failure::IncorrectProgramId)
    );
    accounts[1].owner = key(PROGRAM);
    accounts[1].data = vec![0; 105];
    assert_eq!(
        Processor::process_update_rate(&key(PROGRAM), &accounts, 5),
        Err(Failure::UninitializedAccount)
    );
    accounts[1].data = vec![1; 104];
    assert_eq!(
        Processor::process_update_rate(&key(PROGRAM), &accounts, 5),
        Err(Failure::InvalidAccountData)
    );
    assert_eq!(
        Processor::process_update_rate(&key(PROGRAM), &accounts[..1], 5),
        Err(Failure::NotEnoughAccountKeys)
    );
}

#[test]
fn sol_to_token_pays_in_and_sends_tokens() {
    let outcome =
        Processor::process_exchange_sol_to_token(&key(PROGRAM), &exchange_accounts(100, 0), 5);
    assert_eq!(outcome, Ok(vec![pay(USER, STATE, 5), move_tokens(RESERVE, USER_TOKENS, STATE, 500)]));
}

#[test]
fn sol_to_token_through_its_payload() {
    let data = ExchangeInstruction::ExchangeSolToToken { amount: 3 }.to_vec();
    assert_eq!(
        Processor::process(&key(PROGRAM), &exchange_accounts(7, 0), &data),
        Ok(vec![pay(USER, STATE, 3), move_tokens(RESERVE, USER_TOKENS, STATE, 21)])
    );
}

#[test]
fn sol_to_token_of_nothing_moves_nothing() {
    assert_eq!(
        Processor::process_exchange_sol_to_token(&key(PROGRAM), &exchange_accounts(100, 0), 0),
        Ok(vec![pay(USER, STATE, 0), move_tokens(RESERVE, USER_TOKENS, STATE, 0)])
    );
}

#[test]
fn sol_to_token_at_the_edge_of_64_bits() {
    let rate = 1 << 32;
    let most = (1u64 << 32) - 1;
    assert_eq!(
        Processor::process_exchange_sol_to_token(&key(PROGRAM), &exchange_accounts(rate, 0), most),
        Ok(vec![pay(USER, STATE, most), move_tokens(RESERVE, USER_TOKENS, STATE, most << 32)])
    );
    assert_eq!(
        Processor::process_exchange_sol_to_token(&key(PROGRAM), &exchange_accounts(1, 0), u64::MAX),
        Ok(vec![pay(USER, STATE, u64::MAX), move_tokens(RESERVE, USER_TOKENS, STATE, u64::MAX)])
    );
}

#[test]
fn sol_to_token_overflow_is_refused() {
    assert_eq!(
        Processor::process_exchange_sol_to_token(
            &key(PROGRAM),
            &exchange_accounts(1 << 32, 0),
            1 << 32
        ),
        Err(custom(ExchangeError::ArithmeticOverflow))
    );
    assert_eq!(
        Processor::process_exchange_sol_to_token(&key(PROGRAM), &exchange_accounts(2, 0), u64::MAX),
        Err(Failure::Custom(5))
    );
}

#[test]
fn token_to_sol_takes_tokens_and_pays_out() {
    let outcome =
        Processor::process_exchange_token_to_sol(&key(PROGRAM), &exchange_accounts(100, 5), 250);
    assert_eq!(
        outcome,
        Ok(vec![
            move_tokens(USER_TOKENS, RESERVE, USER, 250),
            Action::MoveLamports { from: key(STATE), to: key(USER), lamports: 2 },
        ])
    );
}

#[test]
fn token_to_sol_through_its_payload() {
    let data = ExchangeInstruction::ExchangeTokenToSol { amount: 21 }.to_vec();
    assert_eq!(
        Processor::process(&key(PROGRAM), &exchange_accounts(7, 3), &data),
        Ok(vec![
            move_tokens(USER_TOKENS, RESERVE, USER, 21),
            Action::MoveLamports { from: key(STATE), to: key(USER), lamports: 3 },
        ])
    );
}

#[test]
fn token_to_sol_rounds_down() {
    for (amount, paid) in [(0, 0), (99, 0), (100, 1), (199, 1), (200, 2), (u64::MAX, u64::MAX / 100)]
    {
        let outcome = Processor::process_exchange_token_to_sol(
            &key(PROGRAM),
            &exchange_accounts(100, u64::MAX),
            amount,
        );
        assert_eq!(
            outcome,
            Ok(vec![
                move_tokens(USER_TOKENS, RESERVE, USER, amount),
                Action::MoveLamports { from: key(STATE), to: key(USER), lamports: paid },
            ])
        );
    }
}

#[test]
fn token_to_sol_below_the_rate_pays_nothing_but_takes_the_tokens() {
    assert_eq!(
        Processor::process_exchange_token_to_sol(&key(PROGRAM), &exchange_accounts(100, 0), 99),
        Ok(vec![
            move_tokens(USER_TOKENS, RESERVE, USER, 99),
            Action::MoveLamports { from: key(STATE), to: key(USER), lamports: 0 },
        ])
    );
}

#[test]
fn token_to_sol_needs_the_exchange_to_hold_the_payment() {
    assert_eq!(
        Processor::process_exchange_token_to_sol(&key(PROGRAM), &exchange_accounts(100, 1), 250),
        Err(custom(ExchangeError::InsufficientSolBalance))
    );
    assert_eq!(
        Processor::process_exchange_token_to_sol(&key(PROGRAM), &exchange_accounts(100, 1), 199)
            .map(|actions| actions.len()),
        Ok(2)
    );
}

#[test]
fn token_to_sol_at_a_stored_rate_of_zero_is_an_overflow() {
    assert_eq!(
        Processor::process_exchange_token_to_sol(&key(PROGRAM), &exchange_accounts(0, 10), 5),
        Err(custom(ExchangeError::ArithmeticOverflow))
    );
}

#[test]
fn exchanges_need_five_accounts() {
    let accounts = exchange_accounts(100, 5);
    assert_eq!(
        Processor::process_exchange_sol_to_token(&key(PROGRAM), &accounts[..4], 5),
        Err(Failure::NotEnoughAccountKeys)
    );
    assert_eq!(
        Processor::process_exchange_token_to_sol(&key(PROGRAM), &accounts[..4], 5),
        Err(Failure::NotEnoughAccountKeys)
    );
}

#[test]
fn exchanges_need_the_user_signature() {
    let mut accounts = exchange_accounts(100, 5);
    accounts[0].is_signer = false;
    assert_eq!(
        Processor::process_exchange_sol_to_token(&key(PROGRAM), &accounts, 5),
        Err(Failure::MissingRequiredSignature)
    );
    assert_eq!(
        Processor::process_exchange_token_to_sol(&key(PROGRAM), &accounts, 5),
        Err(Failure::MissingRequiredSignature)
    );
}

#[test]
fn exchanges_need_a_state_account_of_this_program() {
    let mut accounts = exchange_accounts(100, 5);
    accounts[1].owner = key(USER);
    assert_eq!(
        Processor::process_exchange_sol_to_token(&key(PROGRAM), &accounts, 5),
        Err(Failure::IncorrectProgramId)
    );
    assert_eq!(
        Processor::process_exchange_token_to_sol(&key(PROGRAM), &accounts, 5),
        Err(Failure::IncorrectProgramId)
    );
}

#[test]
fn exchanges_need_an_initialized_record() {
    let mut accounts = exchange_accounts(100, 5);
    accounts[1].data = vec![0; 105];
    assert_eq!(
        Processor::process_exchange_sol_to_token(&key(PROGRAM), &accounts, 5),
        Err(Failure::UninitializedAccount)
    );
    assert_eq!(
        Processor::process_exchange_token_to_sol(&key(PROGRAM), &accounts, 5),
        Err(Failure::UninitializedAccount)
    );
}

#[test]
fn a_missing_signature_comes_before_a_record_that_is_not_initialized() {
    let mut accounts = exchange_accounts(100, 5);
    accounts[0].is_signer = false;
    accounts[1].data = vec![0; 105];
    assert_eq!(
        Processor::process_exchange_sol_to_token(&key(PROGRAM), &accounts, 1),
        Err(Failure::MissingRequiredSignature)
    );
    assert_eq!(
        Processor::process_exchange_token_to_sol(&key(PROGRAM), &accounts, 1),
        Err(Failure::MissingRequiredSignature)
    );
    let data = ExchangeInstruction::ExchangeSolToToken { amount: 1 }.to_vec();
    assert_eq!(
        Processor::process(&key(PROGRAM), &accounts, &data),
        Err(Failure::MissingRequiredSignature)
    );
}

#[test]
fn a_foreign_state_account_comes_before_a_record_that_is_not_initialized() {
    let mut accounts = exchange_accounts(100, 5);
    accounts[1].owner = key(USER);
    accounts[1].data = vec![0; 105];
    assert_eq!(
        Processor::process_exchange_sol_to_token(&key(PROGRAM), &accounts, 1),
        Err(Failure::IncorrectProgramId)
    );
    assert_eq!(
        Processor::process_exchange_token_to_sol(&key(PROGRAM), &accounts, 1),
        Err(Failure::IncorrectProgramId)
    );
}

#[test]
fn a_record_that_is_not_initialized_comes_before_the_reserve() {
    let mut accounts = exchange_accounts(100, 5);
    accounts[1].data = vec![0; 105];
    accounts[2].key = key(MINT);
    assert_eq!(
        Processor::process_exchange_sol_to_token(&key(PROGRAM), &accounts, 1),
        Err(Failure::UninitializedAccount)
    );
    assert_eq!(
        Processor::process_exchange_token_to_sol(&key(PROGRAM), &accounts, 1),
        Err(Failure::UninitializedAccount)
    );
}

#[test]
fn data_that_is_no_record_comes_first() {
    let mut accounts = exchange_accounts(100, 5);
    accounts[0].is_signer = false;
    accounts[1].owner = key(USER);
    accounts[1].data[0] = 2;
    assert_eq!(
        Processor::process_exchange_sol_to_token(&key(PROGRAM), &accounts, 1),
        Err(Failure::InvalidAccountData)
    );
    assert_eq!(
        Processor::process_exchange_token_to_sol(&key(PROGRAM), &accounts, 1),
        Err(Failure::InvalidAccountData)
    );
    accounts[1].data = Vec::new();
    assert_eq!(
        Processor::process_exchange_sol_to_token(&key(PROGRAM), &accounts, 1),
        Err(Failure::InvalidAccountData)
    );
}

#[test]
fn exchanges_need_a_record_of_the_right_length() {
    let mut accounts = exchange_accounts(100, 5);
    accounts[1].data.push(0);
    accounts[0].is_signer = false;
    assert_eq!(
        Processor::process_exchange_sol_to_token(&key(PROGRAM), &accounts, 5),
        Err(Failure::InvalidAccountData)
    );
    assert_eq!(
        Processor::process_exchange_token_to_sol(&key(PROGRAM), &accounts, 5),
        Err(Failure::InvalidAccountData)
    );
}

#[test]
fn exchanges_need_the_recorded_reserve() {
    let mut accounts = exchange_accounts(100, 5);
    accounts[2].key = key(MINT);
    assert_eq!(
        Processor::process_exchange_sol_to_token(&key(PROGRAM), &accounts, 5),
        Err(Failure::InvalidAccountData)
    );
    assert_eq!(
        Processor::process_exchange_token_to_sol(&key(PROGRAM), &accounts, 5),
        Err(Failure::InvalidAccountData)
    );
}

#[test]
fn exchanges_need_the_token_program() {
    let mut accounts = exchange_accounts(100, 5);
    accounts[4].key = system_program_id();
    assert_eq!(
        Processor::process_exchange_token_to_sol(&key(PROGRAM), &accounts, 5),
        Err(Failure::IncorrectProgramId)
    );
    assert_eq!(
        Processor::process_exchange_sol_to_token(&key(PROGRAM), &accounts, 5),
        Ok(vec![
            pay(USER, STATE, 5),
            Action::Fail { error: Failure::IncorrectProgramId },
        ])
    );
}

#[test]
fn sol_to_token_fails_on_the_token_program_only_after_the_payment() {
    let mut accounts = exchange_accounts(3, 0);
    accounts[4].key = key(MINT);
    let actions = Processor::process_exchange_sol_to_token(&key(PROGRAM), &accounts, 9).unwrap();
    assert_eq!(actions.len(), 2);
    assert_eq!(actions[0], pay(USER, STATE, 9));
    assert_eq!(actions[1], Action::Fail { error: Failure::IncorrectProgramId });
    assert_eq!(actions[1].transfer(), None);
}

#[test]
fn failures_come_in_the_order_of_the_checks() {
    let mut accounts = exchange_accounts(1 << 32, 0);
    accounts[4].key = key(MINT);
    assert_eq!(
        Processor::process_exchange_sol_to_token(&key(PROGRAM), &accounts, 1 << 32),
        Err(custom(ExchangeError::ArithmeticOverflow))
    );
    let mut accounts = exchange_accounts(100, 1);
    accounts[4].key = key(MINT);
    assert_eq!(
        Processor::process_exchange_token_to_sol(&key(PROGRAM), &accounts, 250),
        Err(custom(ExchangeError::InsufficientSolBalance))
    );
    accounts[2].key = key(MINT);
    assert_eq!(
        Processor::process_exchange_token_to_sol(&key(PROGRAM), &accounts, 250),
        Err(Failure::InvalidAccountData)
    );
}

#[test]
fn validation_checks_signature_owner_flag_and_reserve() {
    let accounts = exchange_accounts(100, 5);
    let state = record(100);
    let validate = |user: &AccountInfo, exchange: &AccountInfo, reserve: &AccountInfo, state| {
        validate_accounts(&key(PROGRAM), user, exchange, reserve, state)
    };
    assert_eq!(validate(&accounts[0], &accounts[1], &accounts[2], &state), Ok(()));

    let unsigned = account(USER, false);
    let foreign = AccountInfo { owner: key(USER), ..accounts[1].clone() };
    let blank = ExchangeState { is_initialized: false, ..state };
    assert_eq!(
        validate(&unsigned, &foreign, &accounts[3], &blank),
        Err(Failure::MissingRequiredSignature)
    );
    assert_eq!(
        validate(&accounts[0], &foreign, &accounts[3], &blank),
        Err(Failure::IncorrectProgramId)
    );
    assert_eq!(
        validate(&accounts[0], &accounts[1], &accounts[3], &blank),
        Err(Failure::UninitializedAccount)
    );
    assert_eq!(
        validate(&accounts[0], &accounts[1], &accounts[3], &state),
        Err(Failure::InvalidAccountData)
    );
}
