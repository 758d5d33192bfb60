//! The single entry point: authorise one command, then validate and apply it.

use crate::auth::{authorization, authorize, Policy};
use crate::ledger::{
    applied, deposit_outcome, deregister_outcome, register_outcome, withdraw_outcome,
    ContractState, Ledger,
};
use crate::types::{AccountId, ContractInstruction, LedgerError, TokenType};
use vstd::prelude::*;

verus! {

/// The policy that a command falls under: the admin for the registry, the
/// account itself for its balance.
pub open spec fn required_policy(instruction: ContractInstruction) -> Policy {
    match instruction {
        ContractInstruction::AdminAddSupportedToken { .. } => Policy::AdminOnly,
        ContractInstruction::AdminDeleteSupportedToken { .. } => Policy::AdminOnly,
        ContractInstruction::UserDeposit { user, .. } => Policy::SelfOnly { account: user },
        ContractInstruction::UserWithdraw { user, .. } => Policy::SelfOnly { account: user },
    }
}

/// What an authorised command does to the ledger.
pub open spec fn ledger_outcome(ledger: Ledger, instruction: ContractInstruction) -> Result<
    Ledger,
    LedgerError,
> {
    match instruction {
        ContractInstruction::AdminAddSupportedToken { token } => register_outcome(ledger, token@),
        ContractInstruction::AdminDeleteSupportedToken { token } => deregister_outcome(
            ledger,
            token@,
        ),
        ContractInstruction::UserDeposit { token, user, amount } => deposit_outcome(
            ledger,
            token@,
            user@,
            amount,
        ),
        ContractInstruction::UserWithdraw { token, user, amount } => withdraw_outcome(
            ledger,
            token@,
            user@,
            amount,
        ),
    }
}

/// What a command does to the ledger: nothing but `Unauthorized` unless it
/// is permitted, else what the command prescribes.
pub open spec fn process_outcome(
    ledger: Ledger,
    instruction: ContractInstruction,
    permitted: bool,
) -> Result<Ledger, LedgerError> {
    if !permitted {
        Err(LedgerError::Unauthorized)
    } else {
        ledger_outcome(ledger, instruction)
    }
}

/// The policy that `instruction` falls under.
pub fn policy_of(instruction: &ContractInstruction) -> (policy: Policy)
    ensures
        policy == required_policy(*instruction),
{
    match instruction {
        ContractInstruction::AdminAddSupportedToken { .. } => Policy::AdminOnly,
        ContractInstruction::AdminDeleteSupportedToken { .. } => Policy::AdminOnly,
        ContractInstruction::UserDeposit { user, .. } => Policy::SelfOnly { account: *user },
        ContractInstruction::UserWithdraw { user, .. } => Policy::SelfOnly { account: *user },
    }
}

/// Registers `token` on behalf of `claimed`, who must be the admin.
pub fn check_add_token<F: Fn(&AccountId, &[u8]) -> bool>(
    state: &mut ContractState,
    token: TokenType,
    claimed: &AccountId,
    proof: &[u8],
    verifier: &F,
) -> (res: Result<(), LedgerError>)
    requires
        old(state).wf(),
        call_requires(*verifier, (claimed, proof)),
    ensures
        final(state).wf(),
        exists|ok: bool|
            authorization(verifier, claimed, Policy::AdminOnly, proof, ok) && applied(
                old(state)@,
                final(state)@,
                res,
                process_outcome(
                    old(state)@,
                    (ContractInstruction::AdminAddSupportedToken { token }),
                    ok,
                ),
            ),
{
    if !authorize(claimed, &Policy::AdminOnly, proof, verifier) {
        return Err(LedgerError::Unauthorized);
    }
    state.register(token)
}

/// Deregisters `token` on behalf of `claimed`, who must be the admin.
pub fn check_delete_token<F: Fn(&AccountId, &[u8]) -> bool>(
    state: &mut ContractState,
    token: TokenType,
    claimed: &AccountId,
    proof: &[u8],
    verifier: &F,
) -> (res: Result<(), LedgerError>)
    requires
        old(state).wf(),
        call_requires(*verifier, (claimed, proof)),
    ensures
        final(state).wf(),
        exists|ok: bool|
            authorization(verifier, claimed, Policy::AdminOnly, proof, ok) && applied(
                old(state)@,
                final(state)@,
                res,
                process_outcome(
                    old(state)@,
                    (ContractInstruction::AdminDeleteSupportedToken { token }),
                    ok,
                ),
            ),
{
    if !authorize(claimed, &Policy::AdminOnly, proof, verifier) {
        return Err(LedgerError::Unauthorized);
    }
    state.deregister(&token)
}

/// Deposits `amount` of `token` to `user` on behalf of `claimed`, who must
/// be `user`.
pub fn user_deposit_token<F: Fn(&AccountId, &[u8]) -> bool>(
    state: &mut ContractState,
    token: TokenType,
    user: AccountId,
    amount: u64,
    claimed: &AccountId,
    proof: &[u8],
    verifier: &F,
) -> (res: Result<(), LedgerError>)
    requires
        old(state).wf(),
        call_requires(*verifier, (claimed, proof)),
    ensures
        final(state).wf(),
        exists|ok: bool|
            authorization(verifier, claimed, (Policy::SelfOnly { account: user }), proof, ok)
                && applied(
                old(state)@,
                final(state)@,
                res,
                process_outcome(
                    old(state)@,
                    (ContractInstruction::UserDeposit { token, user, amount }),
                    ok,
                ),
            ),
{
    if !authorize(claimed, &Policy::SelfOnly { account: user }, proof, verifier) {
        return Err(LedgerError::Unauthorized);
    }
    state.deposit(&token, &user, amount)
}

/// Withdraws `amount` of `token` from `user` on behalf of `claimed`, who
/// must be `user`.
pub fn user_withdraw_token<F: Fn(&AccountId, &[u8]) -> bool>(
    state: &mut ContractState,
    token: TokenType,
    user: AccountId,
    amount: u64,
    claimed: &AccountId,
    proof: &[u8],
    verifier: &F,
) -> (res: Result<(), LedgerError>)
    requires
        old(state).wf(),
        call_requires(*verifier, (claimed, proof)),
    ensures
        final(state).wf(),
        exists|ok: bool|
            authorization(verifier, claimed, (Policy::SelfOnly { account: user }), proof, ok)
                && applied(
                old(state)@,
                final(state)@,
                res,
                process_outcome(
                    old(state)@,
                    (ContractInstruction::UserWithdraw { token, user, amount }),
                    ok,
                ),
            ),
{
    if !authorize(claimed, &Policy::SelfOnly { account: user }, proof, verifier) {
        return Err(LedgerError::Unauthorized);
    }
    state.withdraw(&token, &user, amount)
}

/// Applies one command on behalf of `claimed`: authorises it, validates it
/// against the ledger, and changes the ledger only if nothing failed.
pub fn process_instruction<F: Fn(&AccountId, &[u8]) -> bool>(
    state: &mut ContractState,
    instruction: ContractInstruction,
    claimed: &AccountId,
    proof: &[u8],
    verifier: &F,
) -> (res: Result<(), LedgerError>)
    requires
        old(state).wf(),
        call_requires(*verifier, (claimed, proof)),
    ensures
        final(state).wf(),
        exists|ok: bool|
            authorization(verifier, claimed, required_policy(instruction), proof, ok) && applied(
                old(state)@,
                final(state)@,
                res,
                process_outcome(old(state)@, instruction, ok),
            ),
{
    match instruction {
        ContractInstruction::AdminAddSupportedToken { token } => check_add_token(
            state,
            token,
            claimed,
            proof,
            verifier,
        ),
        ContractInstruction::AdminDeleteSupportedToken { token } => check_delete_token(
            state,
            token,
            claimed,
            proof,
            verifier,
        ),
        ContractInstruction::UserDeposit { token, user, amount } => user_deposit_token(
            state,
            token,
            user,
            amount,
            claimed,
            proof,
            verifier,
        ),
        ContractInstruction::UserWithdraw { token, user, amount } => user_withdraw_token(
            state,
            token,
            user,
            amount,
            claimed,
            proof,
            verifier,
        ),
    }
}

/// The numeric code under which a refusal is reported, where it has one: a
/// duplicate registration, and an unknown asset by the command that named it.
pub open spec fn custom_code_of(instruction: ContractInstruction, error: LedgerError) -> Option<
    u32,
> {
    match error {
        LedgerError::DuplicateAsset => Some(0u32),
        LedgerError::UnknownAsset => match instruction {
            ContractInstruction::AdminAddSupportedToken { .. } => None,
            ContractInstruction::AdminDeleteSupportedToken { .. } => Some(1u32),
            ContractInstruction::UserDeposit { .. } => Some(2u32),
            ContractInstruction::UserWithdraw { .. } => Some(3u32),
        },
        _ => None,
    }
}

/// The numeric code under which `error`, returned for `instruction`, is
/// reported, or `None` where the error has a name of its own.
pub fn custom_code(instruction: &ContractInstruction, error: LedgerError) -> (code: Option<u32>)
    ensures
        code == custom_code_of(*instruction, error),
{
    match error {
        LedgerError::DuplicateAsset => Some(0),
        LedgerError::UnknownAsset => match instruction {
            ContractInstruction::AdminAddSupportedToken { .. } => None,
            ContractInstruction::AdminDeleteSupportedToken { .. } => Some(1),
            ContractInstruction::UserDeposit { .. } => Some(2),
            ContractInstruction::UserWithdraw { .. } => Some(3),
        },
        _ => None,
    }
}

} // verus!
