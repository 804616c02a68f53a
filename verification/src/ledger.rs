use vstd::prelude::*;
use crate::error::ErrorCode;
use crate::pubkey::Pubkey;
use crate::token::TokenHolding;

verus! {

/// What the ledger keeps of one account: its lamports, and its token holding
/// if it is a token account.
#[derive(Clone, Copy, Debug, PartialEq, Eq)]
pub struct AccountState {
    pub lamports: u64,
    pub token: Option<TokenHolding>,
}

/// The accounts of a ledger, by address.
pub type LedgerView = Map<Pubkey, AccountState>;

/// The lamports of the account at `key`; an address without an account holds none.
pub open spec fn spec_lamports(ledger: LedgerView, key: Pubkey) -> u64 {
    if ledger.dom().contains(key) {
        ledger[key].lamports
    } else {
        0
    }
}

/// The token holding of the account at `key`, if it is a token account.
pub open spec fn spec_token_account(ledger: LedgerView, key: Pubkey) -> Result<
    TokenHolding,
    ErrorCode,
> {
    if ledger.dom().contains(key) && ledger[key].token is Some {
        Ok(ledger[key].token->0)
    } else {
        Err(ErrorCode::DeserializationFailure)
    }
}

/// The ledger after `amount` lamports have moved from `from` to `to`, or
/// `None` where the transfer is rejected: an account is missing, `from`
/// holds less than `amount`, or `to` would hold more than fits.
pub open spec fn spec_transfer_native(
    ledger: LedgerView,
    from: Pubkey,
    to: Pubkey,
    amount: u64,
) -> Option<LedgerView> {
    if !ledger.dom().contains(from) || !ledger.dom().contains(to) || ledger[from].lamports
        < amount {
        None
    } else if from == to {
        Some(ledger)
    } else if ledger[to].lamports + amount > u64::MAX {
        None
    } else {
        Some(
            ledger.insert(
                from,
                AccountState { lamports: (ledger[from].lamports - amount) as u64, ..ledger[from] },
            ).insert(
                to,
                AccountState { lamports: (ledger[to].lamports + amount) as u64, ..ledger[to] },
            ),
        )
    }
}

/// The holding `holding` with `amount` tokens in it.
pub open spec fn spec_with_amount(holding: TokenHolding, amount: int) -> TokenHolding {
    TokenHolding { amount: amount as u64, ..holding }
}

/// The ledger after `amount` tokens have moved from the token account
/// `source` to the token account `destination` on the word of `authority`,
/// or `None` where the transfer is rejected: one of the two is no token
/// account, `authority` does not own `source`, the mints differ, `source`
/// holds less than `amount`, or `destination` would hold more than fits.
///
/// A sweep relies on this rejection: it does not itself compare the mint of
/// a receiver with the mint of its source.
pub open spec fn spec_transfer_asset(
    ledger: LedgerView,
    source: Pubkey,
    destination: Pubkey,
    authority: Pubkey,
    amount: u64,
) -> Option<LedgerView> {
    match (spec_token_account(ledger, source), spec_token_account(ledger, destination)) {
        (Ok(from), Ok(to)) => {
            if from.owner != authority || to.mint != from.mint || from.amount < amount {
                None
            } else if source == destination {
                Some(ledger)
            } else if to.amount + amount > u64::MAX {
                None
            } else {
                Some(
                    ledger.insert(
                        source,
                        AccountState {
                            token: Some(spec_with_amount(from, from.amount - amount)),
                            ..ledger[source]
                        },
                    ).insert(
                        destination,
                        AccountState {
                            token: Some(spec_with_amount(to, to.amount + amount)),
                            ..ledger[destination]
                        },
                    ),
                )
            }
        },
        _ => None,
    }
}

#[derive(Clone, Copy, Debug)]
struct Entry {
    key: Pubkey,
    state: AccountState,
}

/// The entry at `i` is the first one for its address.
spec fn first_at(entries: Seq<Entry>, key: Pubkey, i: int) -> bool {
    &&& 0 <= i < entries.len()
    &&& entries[i].key == key
    &&& forall|j: int| 0 <= j < i ==> (#[trigger] entries[j]).key != key
}

spec fn listed(entries: Seq<Entry>, key: Pubkey) -> bool {
    exists|i: int| first_at(entries, key, i)
}

spec fn place(entries: Seq<Entry>, key: Pubkey) -> int {
    choose|i: int| first_at(entries, key, i)
}

/// An address stands for the first entry that names it.
spec fn as_map(entries: Seq<Entry>) -> LedgerView {
    Map::new(|key: Pubkey| listed(entries, key), |key: Pubkey| entries[place(entries, key)].state)
}

proof fn lemma_first_is_unique(entries: Seq<Entry>, key: Pubkey, i: int, j: int)
    requires
        first_at(entries, key, i),
        first_at(entries, key, j),
    ensures
        i == j,
{
}

proof fn lemma_entry(entries: Seq<Entry>, key: Pubkey, i: int)
    requires
        first_at(entries, key, i),
    ensures
        as_map(entries).dom().contains(key),
        as_map(entries)[key] == entries[i].state,
{
    lemma_first_is_unique(entries, key, i, place(entries, key));
}

proof fn lemma_absent(entries: Seq<Entry>, key: Pubkey)
    requires
        forall|j: int| 0 <= j < entries.len() ==> (#[trigger] entries[j]).key != key,
    ensures
        !as_map(entries).dom().contains(key),
{
}

/// An address that some entry names has a first entry.
proof fn lemma_listed(entries: Seq<Entry>, key: Pubkey, i: int)
    requires
        0 <= i < entries.len(),
        entries[i].key == key,
    ensures
        listed(entries, key),
    decreases i,
{
    if exists|j: int| 0 <= j < i && (#[trigger] entries[j]).key == key {
        let j = choose|j: int| 0 <= j < i && (#[trigger] entries[j]).key == key;
        lemma_listed(entries, key, j);
    } else {
        assert(first_at(entries, key, i));
    }
}

/// Writing a state into the first entry of an address changes the state of
/// that address and of no other, and moves no entry.
proof fn lemma_update(entries: Seq<Entry>, key: Pubkey, i: int, state: AccountState)
    requires
        first_at(entries, key, i),
    ensures
        as_map(entries.update(i, (Entry { key, state }))) == as_map(entries).insert(key, state),
        forall|k: Pubkey, j: int|
            first_at(entries, k, j) ==> #[trigger] first_at(
                entries.update(i, (Entry { key, state })),
                k,
                j,
            ),
{
    let after = entries.update(i, Entry { key, state });
    // The addresses stay where they are, so the first entries do.
    assert forall|k: Pubkey, j: int| #[trigger] first_at(after, k, j) <==> first_at(entries, k, j) by {
        if first_at(after, k, j) {
            assert forall|l: int| 0 <= l < j implies (#[trigger] entries[l]).key != k by {
                assert(after[l].key != k);
            }
        }
    }
    assert forall|k: Pubkey| listed(after, k) <==> listed(entries, k) by {
        if listed(entries, k) {
            assert(first_at(after, k, place(entries, k)));
        }
    }
    lemma_entry(entries, key, i);
    assert forall|k: Pubkey| listed(after, k) implies #[trigger] as_map(after)[k] == as_map(
        entries,
    ).insert(key, state)[k] by {
        let j = place(after, k);
        lemma_entry(after, k, j);
        lemma_entry(entries, k, j);
        if k == key {
            lemma_first_is_unique(entries, key, i, j);
        }
    }
}

/// An entry for an address that has none adds that address and changes no
/// other.
proof fn lemma_push(entries: Seq<Entry>, entry: Entry)
    requires
        !as_map(entries).dom().contains(entry.key),
    ensures
        as_map(entries.push(entry)) == as_map(entries).insert(entry.key, entry.state),
{
    let after = entries.push(entry);
    let last = entries.len() as int;
    assert forall|j: int| 0 <= j < last implies (#[trigger] entries[j]).key != entry.key by {
        if entries[j].key == entry.key {
            lemma_listed(entries, entry.key, j);
        }
    }
    assert(first_at(after, entry.key, last));
    // The entries before the new one are the first of their addresses as before.
    assert forall|k: Pubkey, j: int| j < last implies (#[trigger] first_at(after, k, j)
        <==> first_at(entries, k, j)) by {
        if first_at(after, k, j) {
            assert forall|l: int| 0 <= l < j implies (#[trigger] entries[l]).key != k by {
                assert(after[l].key != k);
            }
        }
    }
    assert forall|k: Pubkey| listed(after, k) <==> (listed(entries, k) || k == entry.key) by {
        if listed(entries, k) {
            assert(first_at(after, k, place(entries, k)));
        }
    }
    assert forall|k: Pubkey| listed(after, k) implies #[trigger] as_map(after)[k] == as_map(
        entries,
    ).insert(entry.key, entry.state)[k] by {
        let j = place(after, k);
        lemma_entry(after, k, j);
        if j < last {
            lemma_entry(entries, k, j);
        }
    }
}

/// A ledger in memory: accounts by address, each with its lamports and, for
/// a token account, its holding. It answers the steps of a sweep as a host
/// does: it reads token accounts, and it moves lamports and tokens or
/// rejects the transfer.
pub struct Ledger {
    entries: Vec<Entry>,
}

impl View for Ledger {
    type V = LedgerView;

    closed spec fn view(&self) -> LedgerView {
        as_map(self.entries@)
    }
}

impl Ledger {
    /// A ledger without accounts.
    pub fn new() -> (ledger: Ledger)
        ensures
            ledger@ == Map::<Pubkey, AccountState>::empty(),
    {
        Ledger { entries: Vec::new() }
    }

    /// The place of the first entry for `key`, if there is one.
    fn find(&self, key: &Pubkey) -> (found: Option<usize>)
        ensures
            match found {
                Some(i) => first_at(self.entries@, *key, i as int) && self@.dom().contains(*key)
                    && self@[*key] == self.entries[i as int].state,
                None => !self@.dom().contains(*key),
            },
    {
        let mut i: usize = 0;
        while i < self.entries.len()
            invariant
                i <= self.entries.len(),
                forall|j: int| 0 <= j < i ==> (#[trigger] self.entries[j]).key != *key,
            decreases self.entries.len() - i,
        {
            if self.entries[i].key == *key {
                proof {
                    lemma_entry(self.entries@, *key, i as int);
                }
                return Some(i);
            }
            i += 1;
        }
        proof {
            lemma_absent(self.entries@, *key);
        }
        None
    }

    /// The state of the account at `key`, if there is one.
    pub fn account(&self, key: &Pubkey) -> (state: Option<AccountState>)
        ensures
            state == if self@.dom().contains(*key) {
                Some(self@[*key])
            } else {
                None
            },
    {
        match self.find(key) {
            Some(i) => Some(self.entries[i].state),
            None => None,
        }
    }

    /// Opens an account at `key` unless there is one already.
    pub fn open_account(&mut self, key: Pubkey, state: AccountState) -> (opened: bool)
        ensures
            opened == !old(self)@.dom().contains(key),
            final(self)@ == if opened {
                old(self)@.insert(key, state)
            } else {
                old(self)@
            },
    {
        match self.find(&key) {
            Some(_) => false,
            None => {
                proof {
                    lemma_push(self.entries@, Entry { key, state });
                }
                self.entries.push(Entry { key, state });
                true
            },
        }
    }

    /// Writes `state` into the entry at `i`, the first one for `key`.
    fn put(&mut self, i: usize, key: Pubkey, state: AccountState)
        requires
            first_at(old(self).entries@, key, i as int),
        ensures
            final(self)@ == old(self)@.insert(key, state),
            forall|k: Pubkey, j: int|
                first_at(old(self).entries@, k, j) ==> #[trigger] first_at(
                    final(self).entries@,
                    k,
                    j,
                ),
    {
        proof {
            lemma_update(self.entries@, key, i as int, state);
        }
        self.entries[i] = Entry { key, state };
    }

    /// The lamports of the account at `key`; an address without an account
    /// holds none.
    pub fn lamports(&self, key: &Pubkey) -> (lamports: u64)
        ensures
            lamports == spec_lamports(self@, *key),
    {
        match self.find(key) {
            Some(i) => self.entries[i].state.lamports,
            None => 0,
        }
    }

    /// The token holding of the account at `key`, or
    /// `DeserializationFailure` where that is no token account.
    pub fn token_account(&self, key: &Pubkey) -> (holding: Result<TokenHolding, ErrorCode>)
        ensures
            holding == spec_token_account(self@, *key),
    {
        match self.find(key) {
            Some(i) => match self.entries[i].state.token {
                Some(holding) => Ok(holding),
                None => Err(ErrorCode::DeserializationFailure),
            },
            None => Err(ErrorCode::DeserializationFailure),
        }
    }

    /// Moves `amount` lamports from `from` to `to`. The transfer is rejected
    /// where an account is missing, `from` holds less than `amount`, or `to`
    /// would hold more than fits; a rejected transfer returns
    /// `TransferFailure` and changes nothing.
    pub fn transfer_native(&mut self, from: &Pubkey, to: &Pubkey, amount: u64) -> (result: Result<
        (),
        ErrorCode,
    >)
        ensures
            match spec_transfer_native(old(self)@, *from, *to, amount) {
                Some(after) => result is Ok && final(self)@ == after,
                None => result == Err::<(), ErrorCode>(ErrorCode::TransferFailure) && final(self)@
                    == old(self)@,
            },
    {
        let (i, j) = match (self.find(from), self.find(to)) {
            (Some(i), Some(j)) => (i, j),
            _ => { return Err(ErrorCode::TransferFailure); },
        };
        let debited = self.entries[i].state;
        let credited = self.entries[j].state;
        if debited.lamports < amount {
            return Err(ErrorCode::TransferFailure);
        }
        if i == j {
            return Ok(());
        }
        if credited.lamports > u64::MAX - amount {
            return Err(ErrorCode::TransferFailure);
        }
        self.put(i, *from, AccountState { lamports: debited.lamports - amount, ..debited });
        self.put(j, *to, AccountState { lamports: credited.lamports + amount, ..credited });
        Ok(())
    }

    /// Moves `amount` tokens from the token account `source` to the token
    /// account `destination` on the word of `authority`. The transfer is
    /// rejected where one of the two is no token account, `authority` does
    /// not own `source`, the mints differ, `source` holds less than `amount`,
    /// or `destination` would hold more than fits; a rejected transfer
    /// returns `TransferFailure` and changes nothing.
    pub fn transfer_asset(
        &mut self,
        source: &Pubkey,
        destination: &Pubkey,
        authority: &Pubkey,
        amount: u64,
    ) -> (result: Result<(), ErrorCode>)
        ensures
            match spec_transfer_asset(old(self)@, *source, *destination, *authority, amount) {
                Some(after) => result is Ok && final(self)@ == after,
                None => result == Err::<(), ErrorCode>(ErrorCode::TransferFailure) && final(self)@
                    == old(self)@,
            },
    {
        let (i, j) = match (self.find(source), self.find(destination)) {
            (Some(i), Some(j)) => (i, j),
            _ => { return Err(ErrorCode::TransferFailure); },
        };
        let debited = self.entries[i].state;
        let credited = self.entries[j].state;
        let (from, to) = match (debited.token, credited.token) {
            (Some(from), Some(to)) => (from, to),
            _ => { return Err(ErrorCode::TransferFailure); },
        };
        if from.owner != *authority || to.mint != from.mint || from.amount < amount {
            return Err(ErrorCode::TransferFailure);
        }
        if i == j {
            return Ok(());
        }
        if to.amount > u64::MAX - amount {
            return Err(ErrorCode::TransferFailure);
        }
        self.put(
            i,
            *source,
            AccountState {
                token: Some(TokenHolding { amount: from.amount - amount, ..from }),
                ..debited
            },
        );
        self.put(
            j,
            *destination,
            AccountState { token: Some(TokenHolding { amount: to.amount + amount, ..to }), ..credited },
        );
        Ok(())
    }

    /// A copy of the ledger as it stands.
    pub fn snapshot(&self) -> (copy: Ledger)
        ensures
            copy@ == self@,
    {
        let mut entries: Vec<Entry> = Vec::new();
        let mut i: usize = 0;
        while i < self.entries.len()
            invariant
                i <= self.entries.len(),
                entries@ == self.entries@.take(i as int),
            decreases self.entries.len() - i,
        {
            entries.push(self.entries[i]);
            i += 1;
        }
        assert(entries@ == self.entries@);
        Ledger { entries }
    }
}

} // verus!
