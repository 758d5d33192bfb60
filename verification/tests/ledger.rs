use token_ledger::auth::{admin_principal, authorize, verify_signature, Policy, ADMIN_PUBKEY};
use token_ledger::ledger::{AccountBalance, ContractState};
use token_ledger::processor::{
    check_add_token, check_delete_token, custom_code, policy_of, process_instruction,
    user_deposit_token, user_withdraw_token,
};
use token_ledger::types::{AccountId, ContractInstruction, LedgerError, TokenType};

const MOCK_SIG: [u8; 65] = [0u8; 65];

fn reject_all(_principal: &AccountId, _proof: &[u8]) -> bool {
    false
}

/// Accepts a proof only if its first byte is the principal's first byte.
fn first_byte(principal: &AccountId, proof: &[u8]) -> bool {
    !proof.is_empty() && proof[0] == principal.bytes[0]
}

fn token(symbol: &str) -> TokenType {
    TokenType { symbol: symbol.to_string() }
}

fn account(tag: u8) -> AccountId {
    AccountId::new([tag; 32])
}

fn admin() -> AccountId {
    admin_principal().unwrap()
}

fn add(symbol: &str) -> ContractInstruction {
    ContractInstruction::AdminAddSupportedToken { token: token(symbol) }
}

fn delete(symbol: &str) -> ContractInstruction {
    ContractInstruction::AdminDeleteSupportedToken { token: token(symbol) }
}

fn deposit(symbol: &str, user: AccountId, amount: u64) -> ContractInstruction {
    ContractInstruction::UserDeposit { token: token(symbol), user, amount }
}

fn withdraw(symbol: &str, user: AccountId, amount: u64) -> ContractInstruction {
    ContractInstruction::UserWithdraw { token: token(symbol), user, amount }
}

fn run(
    state: &mut ContractState,
    instruction: ContractInstruction,
    claimed: &AccountId,
) -> Result<(), LedgerError> {
    process_instruction(state, instruction, claimed, &MOCK_SIG, &verify_signature)
}

fn with_sol() -> ContractState {
    let mut state = ContractState::new();
    assert_eq!(run(&mut state, add("sol"), &admin()), Ok(()));
    state
}

#[test]
fn test_add_delete_deposit_withdraw() {
    let mut state = ContractState::new();
    let admin = admin();
    let user = AccountId::new([0u8; 32]);

    {
        println!("legal add");
        let result = run(&mut state, add("sol"), &admin);
        assert_eq!(result, Ok(()));
        assert_eq!(state.holdings(&token("sol")), Some(vec![]));
        assert!(state.contains(&token("sol")));
        assert!(!state.has_account(&token("sol"), &user));
        assert_eq!(state.try_balance_of(&token("sol"), &user), Ok(0));
    }

    {
        println!("duplicate add");
        let instruction = add("sol");
        let result = run(&mut state, instruction.clone(), &admin);
        assert_eq!(result, Err(LedgerError::DuplicateAsset));
        assert_eq!(custom_code(&instruction, LedgerError::DuplicateAsset), Some(0));
    }

    {
        println!("user sol token deposit");
        let result = run(&mut state, deposit("sol", user, 100), &user);
        assert_eq!(result, Ok(()));
        assert_eq!(
            state.holdings(&token("sol")),
            Some(vec![AccountBalance { account: user, amount: 100 }])
        );
        assert!(state.has_account(&token("sol"), &user));
        assert_eq!(state.try_balance_of(&token("sol"), &user), Ok(100));
    }

    {
        println!("user sol token withdraw");
        let result = run(&mut state, withdraw("sol", user, 10), &user);
        assert_eq!(result, Ok(()));
        assert_eq!(
            state.holdings(&token("sol")),
            Some(vec![AccountBalance { account: user, amount: 90 }])
        );
        assert_eq!(state.try_balance_of(&token("sol"), &user), Ok(90));
    }

    {
        println!("illegal user sol token withdraw");
        let result = run(&mut state, withdraw("sol", user, 100), &user);
        assert_eq!(result, Err(LedgerError::InsufficientFunds));
        assert_eq!(state.try_balance_of(&token("sol"), &user), Ok(90));
    }

    {
        println!("legal delete");
        let result = run(&mut state, delete("sol"), &admin);
        assert_eq!(result, Ok(()));
        assert_eq!(state.holdings(&token("sol")), None);
        assert!(!state.contains(&token("sol")));
        assert_eq!(state.try_balance_of(&token("sol"), &user), Err(LedgerError::UnknownAsset));
    }

    {
        println!("illegal delete");
        let instruction = delete("sool");
        let result = run(&mut state, instruction.clone(), &admin);
        assert_eq!(result, Err(LedgerError::UnknownAsset));
        assert_eq!(custom_code(&instruction, LedgerError::UnknownAsset), Some(1));
    }
}

#[test]
fn admin_principal_is_the_decoded_key() {
    let expected: [u8; 32] = [
        179, 192, 180, 10, 33, 156, 176, 127, 36, 252, 137, 225, 83, 232, 36, 187, 239, 74, 165,
        133, 142, 177, 197, 49, 50, 152, 18, 191, 81, 108, 53, 167,
    ];
    assert_eq!(admin_principal().unwrap().bytes, expected);
    assert_eq!(ADMIN_PUBKEY.len(), 44);
    assert_ne!(&expected[..], ADMIN_PUBKEY.as_bytes());
}

#[test]
fn account_ids_compare_by_bytes() {
    let mut bytes = [7u8; 32];
    assert!(AccountId::new(bytes).same_as(&account(7)));
    bytes[31] = 8;
    assert!(!AccountId::new(bytes).same_as(&account(7)));
    assert!(token("sol").same_as(&token("sol")));
    assert!(!token("sol").same_as(&token("sool")));
}

#[test]
fn new_state_tracks_nothing() {
    let state = ContractState::new();
    assert!(!state.contains(&token("sol")));
    assert!(!state.has_account(&token("sol"), &account(1)));
    assert_eq!(state.balance_of(&token("sol"), &account(1)), 0);
    assert_eq!(state.try_balance_of(&token("sol"), &account(1)), Err(LedgerError::UnknownAsset));
}

#[test]
fn register_twice_is_refused_and_keeps_the_asset() {
    let mut state = ContractState::new();
    assert_eq!(state.register(token("sol")), Ok(()));
    assert_eq!(state.deposit(&token("sol"), &account(1), 5), Ok(()));
    assert_eq!(state.register(token("sol")), Err(LedgerError::DuplicateAsset));
    assert!(state.contains(&token("sol")));
    assert_eq!(state.balance_of(&token("sol"), &account(1)), 5);
    assert_eq!(state.deregister(&token("sol")), Ok(()));
    assert!(!state.contains(&token("sol")));
}

#[test]
fn deregister_unknown_is_refused_and_changes_nothing() {
    let mut state = ContractState::new();
    assert_eq!(state.register(token("sol")), Ok(()));
    assert_eq!(state.deposit(&token("sol"), &account(1), 5), Ok(()));
    assert_eq!(state.deregister(&token("sool")), Err(LedgerError::UnknownAsset));
    assert!(state.contains(&token("sol")));
    assert_eq!(state.balance_of(&token("sol"), &account(1)), 5);
}

#[test]
fn deregister_drops_only_that_asset() {
    let mut state = ContractState::new();
    assert_eq!(state.register(token("sol")), Ok(()));
    assert_eq!(state.register(token("eth")), Ok(()));
    assert_eq!(state.register(token("btc")), Ok(()));
    assert_eq!(state.deposit(&token("sol"), &account(1), 5), Ok(()));
    assert_eq!(state.deposit(&token("eth"), &account(1), 6), Ok(()));
    assert_eq!(state.deposit(&token("btc"), &account(2), 7), Ok(()));
    assert_eq!(state.deregister(&token("eth")), Ok(()));
    assert!(!state.contains(&token("eth")));
    assert_eq!(state.try_balance_of(&token("sol"), &account(1)), Ok(5));
    assert_eq!(state.try_balance_of(&token("btc"), &account(2)), Ok(7));
    assert_eq!(state.register(token("eth")), Ok(()));
    assert_eq!(state.try_balance_of(&token("eth"), &account(1)), Ok(0));
    assert!(!state.has_account(&token("eth"), &account(1)));
}

#[test]
fn deposit_then_withdraw_leaves_the_difference() {
    let mut state = ContractState::new();
    assert_eq!(state.register(token("sol")), Ok(()));
    assert_eq!(state.deposit(&token("sol"), &account(1), 1000), Ok(()));
    assert_eq!(state.withdraw(&token("sol"), &account(1), 250), Ok(()));
    assert_eq!(state.balance_of(&token("sol"), &account(1)), 750);
    assert_eq!(state.deposit(&token("sol"), &account(1), 50), Ok(()));
    assert_eq!(state.withdraw(&token("sol"), &account(1), 50), Ok(()));
    assert_eq!(state.balance_of(&token("sol"), &account(1)), 750);
    assert_eq!(state.withdraw(&token("sol"), &account(1), 750), Ok(()));
    assert_eq!(state.balance_of(&token("sol"), &account(1)), 0);
    assert!(state.has_account(&token("sol"), &account(1)));
}

#[test]
fn holdings_list_each_account_once() {
    let mut state = ContractState::new();
    assert_eq!(state.holdings(&token("sol")), None);
    assert_eq!(state.register(token("sol")), Ok(()));
    assert_eq!(state.deposit(&token("sol"), &account(1), 10), Ok(()));
    assert_eq!(state.deposit(&token("sol"), &account(2), 20), Ok(()));
    assert_eq!(state.deposit(&token("sol"), &account(1), 5), Ok(()));
    assert_eq!(state.withdraw(&token("sol"), &account(3), 1), Err(LedgerError::InsufficientFunds));
    let mut listed = state.holdings(&token("sol")).unwrap();
    listed.sort_by_key(|entry| entry.account.bytes);
    assert_eq!(
        listed,
        vec![
            AccountBalance { account: account(1), amount: 15 },
            AccountBalance { account: account(2), amount: 20 },
        ]
    );
}

#[test]
fn balances_are_kept_apart() {
    let mut state = ContractState::new();
    assert_eq!(state.register(token("sol")), Ok(()));
    assert_eq!(state.register(token("eth")), Ok(()));
    assert_eq!(state.deposit(&token("sol"), &account(1), 10), Ok(()));
    assert_eq!(state.deposit(&token("sol"), &account(2), 20), Ok(()));
    assert_eq!(state.deposit(&token("eth"), &account(1), 30), Ok(()));
    assert_eq!(state.withdraw(&token("sol"), &account(2), 5), Ok(()));
    assert_eq!(state.balance_of(&token("sol"), &account(1)), 10);
    assert_eq!(state.balance_of(&token("sol"), &account(2)), 15);
    assert_eq!(state.balance_of(&token("eth"), &account(1)), 30);
    assert_eq!(state.balance_of(&token("eth"), &account(2)), 0);
    assert!(!state.has_account(&token("eth"), &account(2)));
}

#[test]
fn overdraw_is_refused_and_lists_no_account() {
    let mut state = ContractState::new();
    assert_eq!(state.register(token("sol")), Ok(()));
    assert_eq!(state.withdraw(&token("sol"), &account(1), 1), Err(LedgerError::InsufficientFunds));
    assert!(!state.has_account(&token("sol"), &account(1)));
    assert_eq!(state.deposit(&token("sol"), &account(1), 9), Ok(()));
    assert_eq!(state.withdraw(&token("sol"), &account(1), 10), Err(LedgerError::InsufficientFunds));
    assert_eq!(state.balance_of(&token("sol"), &account(1)), 9);
    assert!(!state.has_account(&token("sol"), &account(2)));
}

#[test]
fn withdrawing_nothing_from_a_new_account_lists_it() {
    let mut state = ContractState::new();
    assert_eq!(state.register(token("sol")), Ok(()));
    assert_eq!(state.withdraw(&token("sol"), &account(1), 0), Ok(()));
    assert!(state.has_account(&token("sol"), &account(1)));
    assert_eq!(state.balance_of(&token("sol"), &account(1)), 0);
}

#[test]
fn depositing_nothing_lists_the_account() {
    let mut state = ContractState::new();
    assert_eq!(state.register(token("sol")), Ok(()));
    assert_eq!(state.deposit(&token("sol"), &account(1), 0), Ok(()));
    assert!(state.has_account(&token("sol"), &account(1)));
    assert_eq!(state.balance_of(&token("sol"), &account(1)), 0);
}

#[test]
fn deposit_overflow_is_refused_and_changes_nothing() {
    let mut state = ContractState::new();
    assert_eq!(state.register(token("sol")), Ok(()));
    assert_eq!(state.deposit(&token("sol"), &account(1), u64::MAX - 1), Ok(()));
    assert_eq!(state.deposit(&token("sol"), &account(1), 2), Err(LedgerError::Overflow));
    assert_eq!(state.balance_of(&token("sol"), &account(1)), u64::MAX - 1);
    assert_eq!(state.deposit(&token("sol"), &account(1), 1), Ok(()));
    assert_eq!(state.balance_of(&token("sol"), &account(1)), u64::MAX);
    assert_eq!(state.deposit(&token("sol"), &account(2), u64::MAX), Ok(()));
    assert_eq!(state.balance_of(&token("sol"), &account(2)), u64::MAX);
}

#[test]
fn commands_on_an_unknown_asset_are_refused() {
    let mut state = with_sol();
    let user = account(1);
    assert_eq!(run(&mut state, deposit("sol", user, 4), &user), Ok(()));
    assert_eq!(run(&mut state, delete("sool"), &admin()), Err(LedgerError::UnknownAsset));
    assert_eq!(run(&mut state, deposit("sool", user, 1), &user), Err(LedgerError::UnknownAsset));
    assert_eq!(run(&mut state, withdraw("sool", user, 1), &user), Err(LedgerError::UnknownAsset));
    assert_eq!(run(&mut state, withdraw("sool", user, 0), &user), Err(LedgerError::UnknownAsset));
    assert!(!state.contains(&token("sool")));
    assert!(state.contains(&token("sol")));
    assert_eq!(state.balance_of(&token("sol"), &user), 4);
    assert_eq!(state.deposit(&token("sool"), &user, 1), Err(LedgerError::UnknownAsset));
    assert_eq!(state.withdraw(&token("sool"), &user, 1), Err(LedgerError::UnknownAsset));
}

#[test]
fn admin_commands_from_another_principal_are_refused() {
    let mut state = ContractState::new();
    let user = account(1);
    assert_eq!(run(&mut state, add("sol"), &user), Err(LedgerError::Unauthorized));
    assert!(!state.contains(&token("sol")));
    assert_eq!(run(&mut state, add("sol"), &admin()), Ok(()));
    assert_eq!(run(&mut state, delete("sol"), &user), Err(LedgerError::Unauthorized));
    assert!(state.contains(&token("sol")));
    assert_eq!(run(&mut state, delete("sool"), &user), Err(LedgerError::Unauthorized));
}

#[test]
fn user_commands_from_another_principal_are_refused() {
    let mut state = with_sol();
    let user = account(1);
    let other = account(2);
    assert_eq!(run(&mut state, deposit("sol", user, 10), &other), Err(LedgerError::Unauthorized));
    assert!(!state.has_account(&token("sol"), &user));
    assert_eq!(run(&mut state, deposit("sol", user, 10), &admin()), Err(LedgerError::Unauthorized));
    assert_eq!(run(&mut state, deposit("sol", user, 10), &user), Ok(()));
    assert_eq!(run(&mut state, withdraw("sol", user, 10), &other), Err(LedgerError::Unauthorized));
    assert_eq!(state.balance_of(&token("sol"), &user), 10);
    assert_eq!(run(&mut state, withdraw("sool", user, 10), &other), Err(LedgerError::Unauthorized));
}

#[test]
fn a_rejected_proof_is_unauthorized() {
    let mut state = ContractState::new();
    let user = account(1);
    let admin = admin();
    assert_eq!(
        process_instruction(&mut state, add("sol"), &admin, &MOCK_SIG, &reject_all),
        Err(LedgerError::Unauthorized)
    );
    assert!(!state.contains(&token("sol")));
    assert_eq!(run(&mut state, add("sol"), &admin), Ok(()));
    assert_eq!(
        process_instruction(&mut state, deposit("sol", user, 3), &user, &MOCK_SIG, &reject_all),
        Err(LedgerError::Unauthorized)
    );
    assert!(!state.has_account(&token("sol"), &user));
    assert_eq!(
        process_instruction(&mut state, deposit("sol", user, 3), &user, &[1u8, 2], &first_byte),
        Ok(())
    );
    assert_eq!(
        process_instruction(&mut state, withdraw("sol", user, 3), &user, &[2u8, 1], &first_byte),
        Err(LedgerError::Unauthorized)
    );
    assert_eq!(state.balance_of(&token("sol"), &user), 3);
}

#[test]
fn authorize_follows_the_policy() {
    let user = account(1);
    let other = account(2);
    let admin = admin();
    assert!(authorize(&admin, &Policy::AdminOnly, &MOCK_SIG, &verify_signature));
    assert!(!authorize(&user, &Policy::AdminOnly, &MOCK_SIG, &verify_signature));
    assert!(!authorize(&admin, &Policy::AdminOnly, &MOCK_SIG, &reject_all));
    assert!(authorize(&user, &Policy::SelfOnly { account: user }, &MOCK_SIG, &verify_signature));
    assert!(!authorize(&other, &Policy::SelfOnly { account: user }, &MOCK_SIG, &verify_signature));
    assert!(!authorize(&user, &Policy::SelfOnly { account: user }, &MOCK_SIG, &reject_all));
    assert!(verify_signature(&user, &[]));
    assert!(verify_signature(&other, &MOCK_SIG));
}

#[test]
fn policy_of_each_command() {
    let user = account(9);
    assert!(matches!(policy_of(&add("sol")), Policy::AdminOnly));
    assert!(matches!(policy_of(&delete("sol")), Policy::AdminOnly));
    match policy_of(&deposit("sol", user, 1)) {
        Policy::SelfOnly { account } => assert_eq!(account.bytes, [9u8; 32]),
        Policy::AdminOnly => panic!("a deposit is the account's own"),
    }
    match policy_of(&withdraw("sol", user, 1)) {
        Policy::SelfOnly { account } => assert_eq!(account.bytes, [9u8; 32]),
        Policy::AdminOnly => panic!("a withdrawal is the account's own"),
    }
}

#[test]
fn each_command_function_checks_and_applies() {
    let mut state = ContractState::new();
    let user = account(1);
    let admin = admin();
    assert_eq!(
        check_add_token(&mut state, token("sol"), &user, &MOCK_SIG, &verify_signature),
        Err(LedgerError::Unauthorized)
    );
    assert_eq!(check_add_token(&mut state, token("sol"), &admin, &MOCK_SIG, &verify_signature), Ok(()));
    assert_eq!(
        check_add_token(&mut state, token("sol"), &admin, &MOCK_SIG, &verify_signature),
        Err(LedgerError::DuplicateAsset)
    );
    assert_eq!(
        user_deposit_token(&mut state, token("sol"), user, 7, &user, &MOCK_SIG, &verify_signature),
        Ok(())
    );
    assert_eq!(
        user_deposit_token(&mut state, token("sol"), user, u64::MAX, &user, &MOCK_SIG, &verify_signature),
        Err(LedgerError::Overflow)
    );
    assert_eq!(
        user_withdraw_token(&mut state, token("sol"), user, 8, &user, &MOCK_SIG, &verify_signature),
        Err(LedgerError::InsufficientFunds)
    );
    assert_eq!(
        user_withdraw_token(&mut state, token("sol"), user, 3, &user, &MOCK_SIG, &verify_signature),
        Ok(())
    );
    assert_eq!(state.balance_of(&token("sol"), &user), 4);
    assert_eq!(
        check_delete_token(&mut state, token("sol"), &user, &MOCK_SIG, &verify_signature),
        Err(LedgerError::Unauthorized)
    );
    assert_eq!(check_delete_token(&mut state, token("sol"), &admin, &MOCK_SIG, &verify_signature), Ok(()));
    assert_eq!(
        check_delete_token(&mut state, token("sol"), &admin, &MOCK_SIG, &verify_signature),
        Err(LedgerError::UnknownAsset)
    );
}

#[test]
fn custom_codes() {
    let user = account(1);
    assert_eq!(custom_code(&add("sol"), LedgerError::DuplicateAsset), Some(0));
    assert_eq!(custom_code(&delete("sol"), LedgerError::UnknownAsset), Some(1));
    assert_eq!(custom_code(&deposit("sol", user, 1), LedgerError::UnknownAsset), Some(2));
    assert_eq!(custom_code(&withdraw("sol", user, 1), LedgerError::UnknownAsset), Some(3));
    assert_eq!(custom_code(&add("sol"), LedgerError::UnknownAsset), None);
    assert_eq!(custom_code(&add("sol"), LedgerError::Unauthorized), None);
    assert_eq!(custom_code(&withdraw("sol", user, 1), LedgerError::InsufficientFunds), None);
    assert_eq!(custom_code(&deposit("sol", user, 1), LedgerError::Overflow), None);
    assert_eq!(custom_code(&add("sol"), LedgerError::DecodeError), None);
}
