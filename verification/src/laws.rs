//! What holds of every ledger and every command, stated over the outcome
//! functions that the commands' contracts use.

use crate::auth::{authorization, policy_admits};
use crate::ledger::{
    balance_in, deposit_outcome, deregister_outcome, register_outcome, withdraw_outcome, Ledger,
};
use crate::processor::{process_outcome, required_policy};
use crate::types::{AccountId, ContractInstruction, LedgerError};
use vstd::prelude::*;

verus! {

/// The ledger that a command leaves behind: the new one on success, the old
/// one on refusal.
pub open spec fn settled(before: Ledger, outcome: Result<Ledger, LedgerError>) -> Ledger {
    match outcome {
        Ok(next) => next,
        Err(_) => before,
    }
}

/// Once an asset has been registered, registering it again is refused with
/// `DuplicateAsset`; the asset stays tracked and the ledger stays as the
/// first registration left it.
pub proof fn law_register_twice(ledger: Ledger, asset: Seq<char>)
    ensures
        ({
            let first = settled(ledger, register_outcome(ledger, asset));
            &&& first.dom().contains(asset)
            &&& register_outcome(first, asset) == Err::<Ledger, LedgerError>(
                LedgerError::DuplicateAsset,
            )
            &&& settled(first, register_outcome(first, asset)) == first
        }),
        !ledger.dom().contains(asset) ==> register_outcome(ledger, asset) is Ok,
{
}

/// Deregistering an asset that is not tracked is refused with
/// `UnknownAsset` and leaves the ledger as it was.
pub proof fn law_deregister_unknown(ledger: Ledger, asset: Seq<char>)
    requires
        !ledger.dom().contains(asset),
    ensures
        deregister_outcome(ledger, asset) == Err::<Ledger, LedgerError>(LedgerError::UnknownAsset),
        settled(ledger, deregister_outcome(ledger, asset)) == ledger,
{
}

/// On a tracked asset, a deposit of `a1` that fits followed by a withdrawal
/// of `a2 <= a1` both succeed and leave the account with `a1 - a2` more than
/// it held; an account that held nothing then holds `a1 - a2`.
pub proof fn law_deposit_then_withdraw(
    ledger: Ledger,
    asset: Seq<char>,
    account: Seq<u8>,
    a1: u64,
    a2: u64,
)
    requires
        ledger.dom().contains(asset),
        balance_in(ledger, asset, account) + a1 <= u64::MAX,
        a2 <= a1,
    ensures
        deposit_outcome(ledger, asset, account, a1) is Ok,
        withdraw_outcome(
            settled(ledger, deposit_outcome(ledger, asset, account, a1)),
            asset,
            account,
            a2,
        ) is Ok,
        balance_in(
            settled(
                settled(ledger, deposit_outcome(ledger, asset, account, a1)),
                withdraw_outcome(
                    settled(ledger, deposit_outcome(ledger, asset, account, a1)),
                    asset,
                    account,
                    a2,
                ),
            ),
            asset,
            account,
        ) == balance_in(ledger, asset, account) + a1 - a2,
{
}

/// Withdrawing more than the account holds of a tracked asset is refused
/// with `InsufficientFunds` and leaves the ledger as it was: an account
/// without an entry gets none.
pub proof fn law_overdraw_refused(ledger: Ledger, asset: Seq<char>, account: Seq<u8>, amount: u64)
    requires
        ledger.dom().contains(asset),
        amount > balance_in(ledger, asset, account),
    ensures
        withdraw_outcome(ledger, asset, account, amount) == Err::<Ledger, LedgerError>(
            LedgerError::InsufficientFunds,
        ),
        settled(ledger, withdraw_outcome(ledger, asset, account, amount)) == ledger,
{
}

/// A permitted command other than a registration that names an asset which
/// is not tracked is refused with `UnknownAsset` and leaves the ledger as it
/// was.
pub proof fn law_unknown_asset(ledger: Ledger, instruction: ContractInstruction)
    requires
        !ledger.dom().contains(instruction.asset()),
        !(instruction is AdminAddSupportedToken),
    ensures
        process_outcome(ledger, instruction, true) == Err::<Ledger, LedgerError>(
            LedgerError::UnknownAsset,
        ),
        settled(ledger, process_outcome(ledger, instruction, true)) == ledger,
{
}

/// A command whose policy does not admit the claimed principal, or whose
/// proof the verifier never accepts for that principal, is not authorised:
/// it is refused with `Unauthorized` and leaves the ledger as it was,
/// whatever the ledger holds.
pub proof fn law_unauthorized<F: Fn(&AccountId, &[u8]) -> bool>(
    ledger: Ledger,
    instruction: ContractInstruction,
    verifier: &F,
    claimed: &AccountId,
    proof: &[u8],
    ok: bool,
)
    requires
        authorization(verifier, claimed, required_policy(instruction), proof, ok),
        !policy_admits(required_policy(instruction), claimed@) || !call_ensures(
            *verifier,
            (claimed, proof),
            true,
        ),
    ensures
        !ok,
        process_outcome(ledger, instruction, ok) == Err::<Ledger, LedgerError>(
            LedgerError::Unauthorized,
        ),
        settled(ledger, process_outcome(ledger, instruction, ok)) == ledger,
{
}

} // verus!
