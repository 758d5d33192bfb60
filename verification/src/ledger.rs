//! The ledger state: which assets are tracked, and what each account holds of
//! each tracked asset.

use crate::assoc::{
    assoc_map, lemma_assoc_at, lemma_assoc_push, lemma_assoc_remove, lemma_assoc_update,
};
use crate::types::{AccountId, LedgerError, TokenType};
use vstd::prelude::*;

verus! {

/// What the accounts of one asset hold.
pub type Balances = Map<Seq<u8>, u64>;

/// The ledger as a value: each tracked asset with the balances of its accounts.
pub type Ledger = Map<Seq<char>, Map<Seq<u8>, u64>>;

/// One account's holding of one asset.
#[derive(Clone, Copy, Debug, PartialEq, Eq)]
pub struct AccountBalance {
    pub account: AccountId,
    pub amount: u64,
}

/// A tracked asset with the holdings of its accounts.
#[derive(Debug)]
pub struct TokenBook {
    pub token: TokenType,
    pub balances: Vec<AccountBalance>,
}

/// The tracked assets and their balances. No asset is listed twice, and no
/// account is listed twice under one asset.
#[derive(Debug)]
pub struct ContractState {
    books: Vec<TokenBook>,
}

pub open spec fn account_keys(book: Seq<AccountBalance>) -> Seq<Seq<u8>> {
    Seq::new(book.len(), |i: int| book[i].account@)
}

pub open spec fn account_amounts(book: Seq<AccountBalance>) -> Seq<u64> {
    Seq::new(book.len(), |i: int| book[i].amount)
}

/// The balances that a list of holdings stands for.
pub open spec fn book_view(book: Seq<AccountBalance>) -> Balances {
    assoc_map(account_keys(book), account_amounts(book))
}

pub open spec fn token_keys(books: Seq<TokenBook>) -> Seq<Seq<char>> {
    Seq::new(books.len(), |i: int| books[i].token@)
}

pub open spec fn token_books(books: Seq<TokenBook>) -> Seq<Balances> {
    Seq::new(books.len(), |i: int| book_view(books[i].balances@))
}

/// What `account` holds according to `balances`: an absent account holds 0.
pub open spec fn held(balances: Balances, account: Seq<u8>) -> u64 {
    if balances.dom().contains(account) {
        balances[account]
    } else {
        0
    }
}

/// What `account` holds of `asset` in `ledger`: absent entries read as 0.
pub open spec fn balance_in(ledger: Ledger, asset: Seq<char>, account: Seq<u8>) -> u64 {
    if ledger.dom().contains(asset) {
        held(ledger[asset], account)
    } else {
        0
    }
}

/// Registering `asset`: refused if it is tracked, else it is added with no balances.
pub open spec fn register_outcome(ledger: Ledger, asset: Seq<char>) -> Result<Ledger, LedgerError> {
    if ledger.dom().contains(asset) {
        Err(LedgerError::DuplicateAsset)
    } else {
        Ok(ledger.insert(asset, Map::empty()))
    }
}

/// Deregistering `asset`: refused if it is not tracked, else it leaves with all its balances.
pub open spec fn deregister_outcome(ledger: Ledger, asset: Seq<char>) -> Result<
    Ledger,
    LedgerError,
> {
    if !ledger.dom().contains(asset) {
        Err(LedgerError::UnknownAsset)
    } else {
        Ok(ledger.remove(asset))
    }
}

/// Depositing `amount`: refused for an untracked asset and where the sum does
/// not fit in 64 bits, else the account holds the sum.
pub open spec fn deposit_outcome(
    ledger: Ledger,
    asset: Seq<char>,
    account: Seq<u8>,
    amount: u64,
) -> Result<Ledger, LedgerError> {
    if !ledger.dom().contains(asset) {
        Err(LedgerError::UnknownAsset)
    } else if held(ledger[asset], account) + amount > u64::MAX {
        Err(LedgerError::Overflow)
    } else {
        Ok(
            ledger.insert(
                asset,
                ledger[asset].insert(account, (held(ledger[asset], account) + amount) as u64),
            ),
        )
    }
}

/// Withdrawing `amount`: refused for an untracked asset and where the account
/// holds less, else the account holds the difference.
pub open spec fn withdraw_outcome(
    ledger: Ledger,
    asset: Seq<char>,
    account: Seq<u8>,
    amount: u64,
) -> Result<Ledger, LedgerError> {
    if !ledger.dom().contains(asset) {
        Err(LedgerError::UnknownAsset)
    } else if held(ledger[asset], account) < amount {
        Err(LedgerError::InsufficientFunds)
    } else {
        Ok(
            ledger.insert(
                asset,
                ledger[asset].insert(account, (held(ledger[asset], account) - amount) as u64),
            ),
        )
    }
}

/// A command's result `res` and the ledger `after` it are what `outcome`
/// prescribes for the ledger `before`: on success the new ledger, on refusal
/// the error and the ledger as it was.
pub open spec fn applied(
    before: Ledger,
    after: Ledger,
    res: Result<(), LedgerError>,
    outcome: Result<Ledger, LedgerError>,
) -> bool {
    match outcome {
        Ok(next) => res is Ok && after == next,
        Err(e) => res == Err::<(), LedgerError>(e) && after == before,
    }
}

fn find_account(balances: &Vec<AccountBalance>, account: &AccountId) -> (found: Option<usize>)
    ensures
        (match found {
            Some(i) => i < balances.len() && balances@[i as int].account@ == account@,
            None => forall|k: int| 0 <= k < balances.len() ==> balances@[k].account@ != account@,
        }),
{
    let mut i: usize = 0;
    while i < balances.len()
        invariant
            i <= balances.len(),
            forall|k: int| 0 <= k < i ==> balances@[k].account@ != account@,
        decreases balances.len() - i,
    {
        if balances[i].account.same_as(account) {
            return Some(i);
        }
        i += 1;
    }
    None
}

fn find_token(books: &Vec<TokenBook>, token: &TokenType) -> (found: Option<usize>)
    ensures
        (match found {
            Some(i) => i < books.len() && books@[i as int].token@ == token@,
            None => forall|k: int| 0 <= k < books.len() ==> books@[k].token@ != token@,
        }),
{
    let mut i: usize = 0;
    while i < books.len()
        invariant
            i <= books.len(),
            forall|k: int| 0 <= k < i ==> books@[k].token@ != token@,
        decreases books.len() - i,
    {
        if books[i].token.same_as(token) {
            return Some(i);
        }
        i += 1;
    }
    None
}

/// A holding found at index `i` is what the account holds.
proof fn lemma_held_at(book: Seq<AccountBalance>, i: int)
    requires
        account_keys(book).no_duplicates(),
        0 <= i < book.len(),
    ensures
        book_view(book).dom().contains(book[i].account@),
        held(book_view(book), book[i].account@) == book[i].amount,
{
    lemma_assoc_at(account_keys(book), account_amounts(book), i);
}

/// An account found at no index holds nothing.
proof fn lemma_held_absent(book: Seq<AccountBalance>, account: Seq<u8>)
    requires
        forall|k: int| 0 <= k < book.len() ==> book[k].account@ != account,
    ensures
        !book_view(book).dom().contains(account),
        !account_keys(book).contains(account),
        held(book_view(book), account) == 0,
{
}

/// Sets what `account` holds to `amount`, listing the account if it is new.
fn set_holding(
    balances: &mut Vec<AccountBalance>,
    slot: Option<usize>,
    account: &AccountId,
    amount: u64,
)
    requires
        account_keys(old(balances)@).no_duplicates(),
        (match slot {
            Some(i) => i < old(balances).len() && old(balances)@[i as int].account@ == account@,
            None => forall|k: int|
                0 <= k < old(balances).len() ==> old(balances)@[k].account@ != account@,
        }),
    ensures
        account_keys(final(balances)@).no_duplicates(),
        book_view(final(balances)@) == book_view(old(balances)@).insert(account@, amount),
{
    let entry = AccountBalance { account: *account, amount };
    match slot {
        Some(i) => {
            balances.set(i, entry);
            proof {
                let before = old(balances)@;
                assert(account_keys(balances@) =~= account_keys(before));
                assert(account_amounts(balances@) =~= account_amounts(before).update(
                    i as int,
                    amount,
                ));
                lemma_assoc_update(account_keys(before), account_amounts(before), i as int, amount);
            }
        },
        None => {
            balances.push(entry);
            proof {
                let before = old(balances)@;
                lemma_held_absent(before, account@);
                assert(account_keys(balances@) =~= account_keys(before).push(account@));
                assert(account_amounts(balances@) =~= account_amounts(before).push(amount));
                lemma_assoc_push(
                    account_keys(before),
                    account_amounts(before),
                    account@,
                    amount,
                );
            }
        },
    }
}

impl View for ContractState {
    type V = Ledger;

    closed spec fn view(&self) -> Ledger {
        assoc_map(token_keys(self.books@), token_books(self.books@))
    }
}

impl ContractState {
    /// No asset is listed twice, and no account twice under one asset.
    pub closed spec fn wf(&self) -> bool {
        &&& token_keys(self.books@).no_duplicates()
        &&& forall|i: int|
            0 <= i < self.books@.len() ==> account_keys(
                #[trigger] self.books@[i].balances@,
            ).no_duplicates()
    }

    /// A ledger that tracks no asset.
    pub fn new() -> (state: ContractState)
        ensures
            state.wf(),
            state@ == Map::<Seq<char>, Map<Seq<u8>, u64>>::empty(),
    {
        let state = ContractState { books: Vec::new() };
        assert(state@ =~= Map::<Seq<char>, Map<Seq<u8>, u64>>::empty());
        state
    }

    /// The book at index `i` is what the ledger holds of its asset.
    proof fn lemma_book_at(&self, i: int)
        requires
            self.wf(),
            0 <= i < self.books@.len(),
        ensures
            self@.dom().contains(self.books@[i].token@),
            self@[self.books@[i].token@] == book_view(self.books@[i].balances@),
    {
        lemma_assoc_at(token_keys(self.books@), token_books(self.books@), i);
    }

    /// An asset found at no index is not tracked.
    proof fn lemma_book_absent(&self, asset: Seq<char>)
        requires
            forall|k: int| 0 <= k < self.books@.len() ==> self.books@[k].token@ != asset,
        ensures
            !self@.dom().contains(asset),
            !token_keys(self.books@).contains(asset),
    {
    }

    /// Whether `token` is tracked.
    pub fn contains(&self, token: &TokenType) -> (known: bool)
        requires
            self.wf(),
        ensures
            known == self@.dom().contains(token@),
    {
        match find_token(&self.books, token) {
            Some(i) => {
                proof {
                    self.lemma_book_at(i as int);
                }
                true
            },
            None => {
                proof {
                    self.lemma_book_absent(token@);
                }
                false
            },
        }
    }

    /// Whether `account` has a balance entry under `token`.
    pub fn has_account(&self, token: &TokenType, account: &AccountId) -> (listed: bool)
        requires
            self.wf(),
        ensures
            listed == (self@.dom().contains(token@) && self@[token@].dom().contains(account@)),
    {
        match find_token(&self.books, token) {
            Some(i) => {
                proof {
                    self.lemma_book_at(i as int);
                }
                match find_account(&self.books[i].balances, account) {
                    Some(j) => {
                        proof {
                            lemma_held_at(self.books@[i as int].balances@, j as int);
                        }
                        true
                    },
                    None => {
                        proof {
                            lemma_held_absent(self.books@[i as int].balances@, account@);
                        }
                        false
                    },
                }
            },
            None => {
                proof {
                    self.lemma_book_absent(token@);
                }
                false
            },
        }
    }

    /// The holdings listed under `token`, one entry for each account that
    /// has one, or `None` if the asset is not tracked.
    pub fn holdings(&self, token: &TokenType) -> (listed: Option<Vec<AccountBalance>>)
        requires
            self.wf(),
        ensures
            (listed is Some) == self@.dom().contains(token@),
            listed is Some ==> account_keys(listed->0@).no_duplicates(),
            listed is Some ==> book_view(listed->0@) == self@[token@],
    {
        match find_token(&self.books, token) {
            Some(i) => {
                proof {
                    self.lemma_book_at(i as int);
                }
                let source = &self.books[i].balances;
                let mut entries: Vec<AccountBalance> = Vec::new();
                let mut j: usize = 0;
                while j < source.len()
                    invariant
                        j <= source.len(),
                        entries@.len() == j,
                        forall|k: int| 0 <= k < j ==> entries@[k] == source@[k],
                    decreases source.len() - j,
                {
                    entries.push(source[j]);
                    j += 1;
                }
                assert(entries@ =~= source@);
                Some(entries)
            },
            None => {
                proof {
                    self.lemma_book_absent(token@);
                }
                None
            },
        }
    }

    /// What `account` holds of `token`, or `UnknownAsset` if the asset is not
    /// tracked. An account without an entry holds 0.
    pub fn try_balance_of(&self, token: &TokenType, account: &AccountId) -> (res: Result<
        u64,
        LedgerError,
    >)
        requires
            self.wf(),
        ensures
            self@.dom().contains(token@) ==> res == Ok::<u64, LedgerError>(
                balance_in(self@, token@, account@),
            ),
            !self@.dom().contains(token@) ==> res == Err::<u64, LedgerError>(
                LedgerError::UnknownAsset,
            ),
    {
        match find_token(&self.books, token) {
            Some(i) => {
                proof {
                    self.lemma_book_at(i as int);
                }
                match find_account(&self.books[i].balances, account) {
                    Some(j) => {
                        proof {
                            lemma_held_at(self.books@[i as int].balances@, j as int);
                        }
                        Ok(self.books[i].balances[j].amount)
                    },
                    None => {
                        proof {
                            lemma_held_absent(self.books@[i as int].balances@, account@);
                        }
                        Ok(0)
                    },
                }
            },
            None => {
                proof {
                    self.lemma_book_absent(token@);
                }
                Err(LedgerError::UnknownAsset)
            },
        }
    }

    /// What `account` holds of `token`; absent entries read as 0.
    pub fn balance_of(&self, token: &TokenType, account: &AccountId) -> (amount: u64)
        requires
            self.wf(),
        ensures
            amount == balance_in(self@, token@, account@),
    {
        match self.try_balance_of(token, account) {
            Ok(amount) => amount,
            Err(_) => 0,
        }
    }

    /// Starts tracking `token`, with no balances. Refused with
    /// `DuplicateAsset` if it is tracked already.
    pub fn register(&mut self, token: TokenType) -> (res: Result<(), LedgerError>)
        requires
            old(self).wf(),
        ensures
            final(self).wf(),
            applied(old(self)@, final(self)@, res, register_outcome(old(self)@, token@)),
    {
        match find_token(&self.books, &token) {
            Some(i) => {
                proof {
                    self.lemma_book_at(i as int);
                }
                Err(LedgerError::DuplicateAsset)
            },
            None => {
                let ghost asset = token@;
                proof {
                    self.lemma_book_absent(asset);
                }
                self.books.push(TokenBook { token, balances: Vec::new() });
                proof {
                    let before = old(self).books@;
                    assert(book_view(Seq::<AccountBalance>::empty()) =~= Map::<
                        Seq<u8>,
                        u64,
                    >::empty());
                    assert(token_keys(self.books@) =~= token_keys(before).push(asset));
                    assert(token_books(self.books@) =~= token_books(before).push(Map::empty()));
                    lemma_assoc_push(token_keys(before), token_books(before), asset, Map::empty());
                }
                Ok(())
            },
        }
    }

    /// Stops tracking `token` and drops all its balances. Refused with
    /// `UnknownAsset` if it is not tracked.
    pub fn deregister(&mut self, token: &TokenType) -> (res: Result<(), LedgerError>)
        requires
            old(self).wf(),
        ensures
            final(self).wf(),
            applied(old(self)@, final(self)@, res, deregister_outcome(old(self)@, token@)),
    {
        match find_token(&self.books, token) {
            Some(i) => {
                proof {
                    self.lemma_book_at(i as int);
                }
                let _ = self.books.remove(i);
                proof {
                    let before = old(self).books@;
                    assert(token_keys(self.books@) =~= token_keys(before).remove(i as int));
                    assert(token_books(self.books@) =~= token_books(before).remove(i as int));
                    lemma_assoc_remove(token_keys(before), token_books(before), i as int);
                }
                Ok(())
            },
            None => {
                proof {
                    self.lemma_book_absent(token@);
                }
                Err(LedgerError::UnknownAsset)
            },
        }
    }

    /// Replaces what `account` holds of the asset at index `i` by `amount`.
    fn store(&mut self, i: usize, slot: Option<usize>, account: &AccountId, amount: u64)
        requires
            old(self).wf(),
            i < old(self).books@.len(),
            (match slot {
                Some(j) => j < old(self).books@[i as int].balances@.len() && old(
                    self,
                ).books@[i as int].balances@[j as int].account@ == account@,
                None => forall|k: int|
                    0 <= k < old(self).books@[i as int].balances@.len() ==> old(
                        self,
                    ).books@[i as int].balances@[k].account@ != account@,
            }),
        ensures
            final(self).wf(),
            final(self)@ == old(self)@.insert(
                old(self).books@[i as int].token@,
                old(self)@[old(self).books@[i as int].token@].insert(account@, amount),
            ),
    {
        proof {
            self.lemma_book_at(i as int);
        }
        set_holding(&mut self.books[i].balances, slot, account, amount);
        proof {
            let before = old(self).books@;
            assert(token_keys(self.books@) =~= token_keys(before));
            assert(token_books(self.books@) =~= token_books(before).update(
                i as int,
                book_view(self.books@[i as int].balances@),
            ));
            lemma_assoc_update(
                token_keys(before),
                token_books(before),
                i as int,
                book_view(self.books@[i as int].balances@),
            );
        }
    }

    /// Adds `amount` to what `account` holds of `token`, listing the account
    /// if it is new. Refused with `UnknownAsset` if the asset is not tracked,
    /// and with `Overflow` if the sum does not fit in 64 bits.
    pub fn deposit(&mut self, token: &TokenType, account: &AccountId, amount: u64) -> (res: Result<
        (),
        LedgerError,
    >)
        requires
            old(self).wf(),
        ensures
            final(self).wf(),
            applied(
                old(self)@,
                final(self)@,
                res,
                deposit_outcome(old(self)@, token@, account@, amount),
            ),
    {
        let i = match find_token(&self.books, token) {
            Some(i) => i,
            None => {
                proof {
                    self.lemma_book_absent(token@);
                }
                return Err(LedgerError::UnknownAsset);
            },
        };
        let slot = find_account(&self.books[i].balances, account);
        let current: u64 = match slot {
            Some(j) => self.books[i].balances[j].amount,
            None => 0,
        };
        proof {
            self.lemma_book_at(i as int);
            match slot {
                Some(j) => lemma_held_at(self.books@[i as int].balances@, j as int),
                None => lemma_held_absent(self.books@[i as int].balances@, account@),
            }
        }
        if amount > u64::MAX - current {
            return Err(LedgerError::Overflow);
        }
        self.store(i, slot, account, current + amount);
        Ok(())
    }

    /// Takes `amount` from what `account` holds of `token`. Refused with
    /// `UnknownAsset` if the asset is not tracked, and with
    /// `InsufficientFunds` if the account holds less than `amount`; a refused
    /// withdrawal lists no account.
    pub fn withdraw(&mut self, token: &TokenType, account: &AccountId, amount: u64) -> (res:
        Result<(), LedgerError>)
        requires
            old(self).wf(),
        ensures
            final(self).wf(),
            applied(
                old(self)@,
                final(self)@,
                res,
                withdraw_outcome(old(self)@, token@, account@, amount),
            ),
    {
        let i = match find_token(&self.books, token) {
            Some(i) => i,
            None => {
                proof {
                    self.lemma_book_absent(token@);
                }
                return Err(LedgerError::UnknownAsset);
            },
        };
        let slot = find_account(&self.books[i].balances, account);
        let current: u64 = match slot {
            Some(j) => self.books[i].balances[j].amount,
            None => 0,
        };
        proof {
            self.lemma_book_at(i as int);
            match slot {
                Some(j) => lemma_held_at(self.books@[i as int].balances@, j as int),
                None => lemma_held_absent(self.books@[i as int].balances@, account@),
            }
        }
        if current < amount {
            return Err(LedgerError::InsufficientFunds);
        }
        self.store(i, slot, account, current - amount);
        Ok(())
    }
}

} // verus!
