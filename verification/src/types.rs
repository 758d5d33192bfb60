//! The plain values that commands are made of.

use vstd::prelude::*;

verus! {

/// Number of bytes in an account identifier.
pub const ACCOUNT_ID_BYTES: usize = 32;

/// An account identity: a fixed-size, public-key-like identifier.
#[derive(Clone, Copy, Debug, PartialEq, Eq)]
pub struct AccountId {
    pub bytes: [u8; 32],
}

impl View for AccountId {
    type V = Seq<u8>;

    open spec fn view(&self) -> Seq<u8> {
        self.bytes@
    }
}

impl AccountId {
    /// Wraps the 32 bytes of an identifier.
    pub fn new(bytes: [u8; 32]) -> (id: AccountId)
        ensures
            id@ == bytes@,
            id.bytes == bytes,
    {
        AccountId { bytes }
    }

    /// Whether two identifiers hold the same bytes.
    pub fn same_as(&self, other: &AccountId) -> (same: bool)
        ensures
            same == (self@ == other@),
    {
        let mut i: usize = 0;
        while i < ACCOUNT_ID_BYTES
            invariant
                i <= ACCOUNT_ID_BYTES,
                forall|k: int| 0 <= k < i ==> self.bytes@[k] == other.bytes@[k],
            decreases ACCOUNT_ID_BYTES - i,
        {
            if self.bytes[i] != other.bytes[i] {
                return false;
            }
            i += 1;
        }
        assert(self.bytes@ =~= other.bytes@);
        true
    }
}

/// An asset identifier: a symbol such as `"sol"`.
#[derive(Clone, Debug)]
pub struct TokenType {
    pub symbol: String,
}

impl View for TokenType {
    type V = Seq<char>;

    open spec fn view(&self) -> Seq<char> {
        self.symbol@
    }
}

impl TokenType {
    /// Whether two identifiers spell the same symbol.
    pub fn same_as(&self, other: &TokenType) -> (same: bool)
        ensures
            same == (self@ == other@),
    {
        self.symbol == other.symbol
    }
}

/// Why a command was rejected.
#[derive(Clone, Copy, Debug, PartialEq, Eq, Structural)]
pub enum LedgerError {
    /// The proof did not satisfy the command's policy.
    Unauthorized,
    /// The asset to register is already tracked.
    DuplicateAsset,
    /// The command names an asset that is not tracked.
    UnknownAsset,
    /// The amount to withdraw exceeds the account's balance.
    InsufficientFunds,
    /// The deposit would exceed the largest representable balance.
    Overflow,
    /// The command envelope could not be decoded.
    DecodeError,
}

/// One command against the ledger.
#[derive(Clone, Debug)]
pub enum ContractInstruction {
    AdminAddSupportedToken { token: TokenType },
    AdminDeleteSupportedToken { token: TokenType },
    UserDeposit { token: TokenType, user: AccountId, amount: u64 },
    UserWithdraw { token: TokenType, user: AccountId, amount: u64 },
}

impl ContractInstruction {
    /// The asset that the command names.
    pub open spec fn asset(&self) -> Seq<char> {
        match self {
            ContractInstruction::AdminAddSupportedToken { token } => token@,
            ContractInstruction::AdminDeleteSupportedToken { token } => token@,
            ContractInstruction::UserDeposit { token, .. } => token@,
            ContractInstruction::UserWithdraw { token, .. } => token@,
        }
    }
}

} // verus!
