//! Who may issue a command: the policy that a command falls under, the fixed
//! admin principal, and the verifier that judges the proof. The verifier is
//! any function from a principal and a proof to a verdict; the ledger never
//! looks into a proof.

use crate::types::AccountId;
use std::str::FromStr;
use vstd::prelude::*;

verus! {

/// The admin principal, in base58.
pub const ADMIN_PUBKEY: &'static str = "D6gQXdUX7AwrGtdQaCuZ5p1MwyXHaidWvKypdKY9bmkA";

/// What a command asks of the principal that claims it.
#[derive(Clone, Copy, Debug)]
pub enum Policy {
    /// The principal must be the admin.
    AdminOnly,
    /// The principal must be the account that the command operates on.
    SelfOnly { account: AccountId },
}

/// The verifier that accepts every proof for every principal.
pub fn verify_signature(_pubkey: &AccountId, _sig: &[u8]) -> (ok: bool)
    ensures
        ok,
{
    true
}

/// The 32 bytes that `solana_program`'s `Pubkey::from_str` decodes `text`
/// to, or `None` where it rejects `text`.
pub uninterp spec fn pubkey_from_str(text: Seq<char>) -> Option<Seq<u8>>;

/// The bytes of an identifier that may be missing.
pub open spec fn id_bytes(id: Option<AccountId>) -> Option<Seq<u8>> {
    match id {
        Some(id) => Some(id@),
        None => None,
    }
}

/// Calls `solana_program::pubkey::Pubkey::from_str` and hands out the key's
/// bytes (`Pubkey::to_bytes`) as an identifier. Believed, not proved: the
/// bytes are `pubkey_from_str` of the text, `None` standing for the parse
/// error.
#[verifier::external_body]
fn parse_pubkey(text: &str) -> (key: Option<AccountId>)
    ensures
        id_bytes(key) == pubkey_from_str(text@),
{
    match solana_program::pubkey::Pubkey::from_str(text) {
        Ok(key) => Some(AccountId { bytes: key.to_bytes() }),
        Err(_) => None,
    }
}

/// The admin principal's bytes, if `ADMIN_PUBKEY` decodes to a key. Where it
/// does not, no principal is the admin.
pub open spec fn admin_key() -> Option<Seq<u8>> {
    pubkey_from_str(ADMIN_PUBKEY@)
}

/// Whether `policy` lets `claimed` act, the proof apart.
pub open spec fn policy_admits(policy: Policy, claimed: Seq<u8>) -> bool {
    match policy {
        Policy::AdminOnly => admin_key() == Some(claimed),
        Policy::SelfOnly { account } => account@ == claimed,
    }
}

/// Whether `ok` is a right answer to "may `claimed` act under `policy` with
/// `proof`?": where the policy admits the principal, `ok` is a verdict of
/// the verifier on the principal and the proof; where it does not, `ok` is
/// false.
pub open spec fn authorization<F: Fn(&AccountId, &[u8]) -> bool>(
    verifier: &F,
    claimed: &AccountId,
    policy: Policy,
    proof: &[u8],
    ok: bool,
) -> bool {
    if policy_admits(policy, claimed@) {
        call_ensures(*verifier, (claimed, proof), ok)
    } else {
        !ok
    }
}

/// The admin principal: `ADMIN_PUBKEY` decoded, or `None` where the text is
/// no key.
pub fn admin_principal() -> (admin: Option<AccountId>)
    ensures
        id_bytes(admin) == admin_key(),
{
    parse_pubkey(ADMIN_PUBKEY)
}

/// Decides whether `claimed` may act under `policy` with `proof`. The
/// verifier is asked only about a principal that the policy admits; the
/// proof is handed to it unread.
pub fn authorize<F: Fn(&AccountId, &[u8]) -> bool>(
    claimed: &AccountId,
    policy: &Policy,
    proof: &[u8],
    verifier: &F,
) -> (ok: bool)
    requires
        call_requires(*verifier, (claimed, proof)),
    ensures
        authorization(verifier, claimed, *policy, proof, ok),
{
    let admitted = match policy {
        Policy::AdminOnly => match admin_principal() {
            Some(admin) => admin.same_as(claimed),
            None => false,
        },
        Policy::SelfOnly { account } => account.same_as(claimed),
    };
    if admitted {
        verifier(claimed, proof)
    } else {
        false
    }
}

} // verus!
