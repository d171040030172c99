//! The ledger store: keyed maps of accounts, blocks and receipts, plus
//! the current block counter. The maps are concurrency-safe sharded maps
//! of the `dashmap` crate, held behind trusted contracts over their
//! mathematical contents.

use vstd::prelude::*;

use crate::types::{
    Account, AccountView, Block, BlockView, TransactionReceipt, TransactionReceiptView,
};

verus! {

/// Declares `dashmap::DashMap`, the sharded concurrent map the store's
/// three keyed collections are built on. The type is opaque here: what a
/// map holds is named by the `*_map_contents` functions below, and
/// everything the store knows about it comes from the contracts of the
/// wrappers around `new`, `get` and `insert`.
#[verifier::external_type_specification]
#[verifier::external_body]
#[verifier::reject_recursive_types(K)]
#[verifier::reject_recursive_types(V)]
#[verifier::reject_recursive_types(S)]
pub struct ExDashMap<K, V, S>(dashmap::DashMap<K, V, S>);

/// What the account map holds: its entries, keyed by address.
pub uninterp spec fn account_map_contents(
    m: dashmap::DashMap<String, Account>,
) -> Map<Seq<char>, AccountView>;

/// What the block map holds: its entries, keyed by block number.
pub uninterp spec fn block_map_contents(m: dashmap::DashMap<u64, Block>) -> Map<u64, BlockView>;

/// What the receipt map holds: its entries, keyed by transaction hash.
pub uninterp spec fn receipt_map_contents(
    m: dashmap::DashMap<String, TransactionReceipt>,
) -> Map<Seq<char>, TransactionReceiptView>;

/// Relies on `dashmap::DashMap::new`: a map with no entries.
#[verifier::external_body]
fn account_map_new() -> (m: dashmap::DashMap<String, Account>)
    ensures
        account_map_contents(m) == fresh_store().accounts,
{
    dashmap::DashMap::new()
}

/// Relies on `dashmap::DashMap::new`: a map with no entries.
#[verifier::external_body]
fn block_map_new() -> (m: dashmap::DashMap<u64, Block>)
    ensures
        block_map_contents(m) == fresh_store().blocks,
{
    dashmap::DashMap::new()
}

/// Relies on `dashmap::DashMap::new`: a map with no entries.
#[verifier::external_body]
fn receipt_map_new() -> (m: dashmap::DashMap<String, TransactionReceipt>)
    ensures
        receipt_map_contents(m) == fresh_store().receipts,
{
    dashmap::DashMap::new()
}

/// Relies on `dashmap::DashMap::get`: the entry under the key, if any.
/// The guard it returns is dropped at once; only a clone of the value
/// leaves the wrapper.
#[verifier::external_body]
fn account_map_get(m: &dashmap::DashMap<String, Account>, key: &str) -> (r: Option<Account>)
    ensures
        match r {
            Some(a) => account_map_contents(*m).contains_key(key@) && a@ == account_map_contents(
                *m,
            )[key@],
            None => !account_map_contents(*m).contains_key(key@),
        },
{
    m.get(key).map(|entry| entry.value().clone())
}

/// Relies on `dashmap::DashMap::get`: the entry under the key, if any.
#[verifier::external_body]
fn block_map_get(m: &dashmap::DashMap<u64, Block>, key: u64) -> (r: Option<Block>)
    ensures
        match r {
            Some(b) => block_map_contents(*m).contains_key(key) && b@ == block_map_contents(
                *m,
            )[key],
            None => !block_map_contents(*m).contains_key(key),
        },
{
    m.get(&key).map(|entry| entry.value().clone())
}

/// Relies on `dashmap::DashMap::get`: the entry under the key, if any.
#[verifier::external_body]
fn receipt_map_get(m: &dashmap::DashMap<String, TransactionReceipt>, key: &str) -> (r: Option<
    TransactionReceipt,
>)
    ensures
        match r {
            Some(t) => receipt_map_contents(*m).contains_key(key@) && t@ == receipt_map_contents(
                *m,
            )[key@],
            None => !receipt_map_contents(*m).contains_key(key@),
        },
{
    m.get(key).map(|entry| entry.value().clone())
}

/// Relies on `dashmap::DashMap::insert`: afterwards the key holds exactly
/// the inserted value, and no other entry changes (last writer wins).
#[verifier::external_body]
fn account_map_insert(m: &mut dashmap::DashMap<String, Account>, key: String, value: Account)
    ensures
        account_map_contents(*final(m)) == account_map_contents(*old(m)).insert(key@, value@),
{
    m.insert(key, value);
}

/// Relies on `dashmap::DashMap::insert`: afterwards the key holds exactly
/// the inserted value, and no other entry changes (last writer wins).
#[verifier::external_body]
fn block_map_insert(m: &mut dashmap::DashMap<u64, Block>, key: u64, value: Block)
    ensures
        block_map_contents(*final(m)) == block_map_contents(*old(m)).insert(key, value@),
{
    m.insert(key, value);
}

/// Relies on `dashmap::DashMap::insert`: afterwards the key holds exactly
/// the inserted value, and no other entry changes (last writer wins).
#[verifier::external_body]
fn receipt_map_insert(
    m: &mut dashmap::DashMap<String, TransactionReceipt>,
    key: String,
    value: TransactionReceipt,
)
    ensures
        receipt_map_contents(*final(m)) == receipt_map_contents(*old(m)).insert(key@, value@),
{
    m.insert(key, value);
}

/// Mathematical image of the whole store.
#[verifier::ext_equal]
pub struct StoreView {
    pub accounts: Map<Seq<char>, AccountView>,
    pub blocks: Map<u64, BlockView>,
    pub receipts: Map<Seq<char>, TransactionReceiptView>,
    pub fork_url: Option<Seq<char>>,
    pub current_block: u64,
}

/// The store as constructed empty: no entries anywhere, no fork origin,
/// counter at zero.
pub open spec fn fresh_store() -> StoreView {
    StoreView {
        accounts: Map::empty(),
        blocks: Map::empty(),
        receipts: Map::empty(),
        fork_url: None,
        current_block: 0,
    }
}

/// The account a first reference to `addr` creates: zero balance, zero
/// nonce, no code, an empty resource bag.
pub open spec fn fresh_account(addr: Seq<char>) -> AccountView {
    AccountView { address: addr, balance: "0"@, nonce: 0, code: None, resources: "{}"@ }
}

/// What `get_or_create_account` returns: the existing entry, or the
/// fresh account when there is none.
pub open spec fn goc_result(v: StoreView, addr: Seq<char>) -> AccountView {
    if v.accounts.contains_key(addr) {
        v.accounts[addr]
    } else {
        fresh_account(addr)
    }
}

/// The store `get_or_create_account` leaves behind: unchanged when the
/// entry exists, the fresh account inserted when it does not.
pub open spec fn goc_state(v: StoreView, addr: Seq<char>) -> StoreView {
    if v.accounts.contains_key(addr) {
        v
    } else {
        StoreView { accounts: v.accounts.insert(addr, fresh_account(addr)), ..v }
    }
}

/// The store after one block-counter increment.
pub open spec fn incremented(v: StoreView) -> StoreView {
    StoreView { current_block: (v.current_block + 1) as u64, ..v }
}

/// The store after `n` block-counter increments.
pub open spec fn after_increments(v: StoreView, n: nat) -> StoreView
    decreases n,
{
    if n == 0 {
        v
    } else {
        incremented(after_increments(v, (n - 1) as nat))
    }
}

/// The in-memory ledger: address-keyed accounts, number-keyed blocks,
/// hash-keyed receipts, an optional fork origin, and the current block
/// counter.
pub struct StateManager {
    pub accounts: dashmap::DashMap<String, Account>,
    pub blocks: dashmap::DashMap<u64, Block>,
    pub transactions: dashmap::DashMap<String, TransactionReceipt>,
    pub fork_url: Option<String>,
    pub current_block: u64,
}

impl View for StateManager {
    type V = StoreView;

    open spec fn view(&self) -> StoreView {
        StoreView {
            accounts: account_map_contents(self.accounts),
            blocks: block_map_contents(self.blocks),
            receipts: receipt_map_contents(self.transactions),
            fork_url: crate::types::opt_string_view(self.fork_url),
            current_block: self.current_block,
        }
    }
}

impl StateManager {
    /// An empty store.
    pub fn new() -> (s: Self)
        ensures
            s@ == fresh_store(),
    {
        let s = StateManager {
            accounts: account_map_new(),
            blocks: block_map_new(),
            transactions: receipt_map_new(),
            fork_url: None,
            current_block: 0,
        };
        proof {
            assert(s@ =~= fresh_store());
        }
        s
    }

    /// An empty store that remembers the remote origin it stands in for.
    /// Synchronizing from the origin is a soft step: whether or not any
    /// snapshot can be pulled, construction succeeds and the entries
    /// start empty.
    pub fn forked(url: String) -> (s: Self)
        ensures
            s@ == (StoreView { fork_url: Some(url@), ..fresh_store() }),
    {
        let mut s = StateManager::new();
        s.fork_url = Some(url);
        proof {
            assert(s@ =~= (StoreView { fork_url: Some(s.fork_url->0@), ..fresh_store() }));
        }
        s
    }

    /// The account stored under `address`, if any; no side effect.
    pub fn get_account(&self, address: &str) -> (r: Option<Account>)
        ensures
            match r {
                Some(a) => self@.accounts.contains_key(address@) && a@ == self@.accounts[address@],
                None => !self@.accounts.contains_key(address@),
            },
    {
        account_map_get(&self.accounts, address)
    }

    /// Stores `account` under `address`, replacing any previous entry.
    pub fn set_account(&mut self, address: String, account: Account)
        ensures
            final(self)@ == (StoreView {
                accounts: old(self)@.accounts.insert(address@, account@),
                ..old(self)@
            }),
    {
        account_map_insert(&mut self.accounts, address, account);
        proof {
            assert(self@ =~= (StoreView {
                accounts: old(self)@.accounts.insert(address@, account@),
                ..old(self)@
            }));
        }
    }

    /// The block stored under `number`, if any; no side effect.
    pub fn get_block(&self, number: u64) -> (r: Option<Block>)
        ensures
            match r {
                Some(b) => self@.blocks.contains_key(number) && b@ == self@.blocks[number],
                None => !self@.blocks.contains_key(number),
            },
    {
        block_map_get(&self.blocks, number)
    }

    /// Stores `block` under its own number, replacing any previous entry.
    pub fn add_block(&mut self, block: Block)
        ensures
            final(self)@ == (StoreView {
                blocks: old(self)@.blocks.insert(block.number, block@),
                ..old(self)@
            }),
    {
        let number = block.number;
        block_map_insert(&mut self.blocks, number, block);
        proof {
            assert(self@ =~= (StoreView {
                blocks: old(self)@.blocks.insert(number, block@),
                ..old(self)@
            }));
        }
    }

    /// The receipt stored under `hash`, if any; no side effect.
    pub fn get_transaction(&self, hash: &str) -> (r: Option<TransactionReceipt>)
        ensures
            match r {
                Some(t) => self@.receipts.contains_key(hash@) && t@ == self@.receipts[hash@],
                None => !self@.receipts.contains_key(hash@),
            },
    {
        receipt_map_get(&self.transactions, hash)
    }

    /// Stores `receipt` under `hash`, replacing any previous entry.
    pub fn add_transaction(&mut self, hash: String, receipt: TransactionReceipt)
        ensures
            final(self)@ == (StoreView {
                receipts: old(self)@.receipts.insert(hash@, receipt@),
                ..old(self)@
            }),
    {
        receipt_map_insert(&mut self.transactions, hash, receipt);
        proof {
            assert(self@ =~= (StoreView {
                receipts: old(self)@.receipts.insert(hash@, receipt@),
                ..old(self)@
            }));
        }
    }

    /// The current block counter; no side effect.
    pub fn current_block_number(&self) -> (n: u64)
        ensures
            n == self@.current_block,
    {
        self.current_block
    }

    /// Advances the block counter by exactly one; nothing else changes.
    pub fn increment_block(&mut self)
        requires
            old(self)@.current_block < u64::MAX,
        ensures
            final(self)@ == incremented(old(self)@),
    {
        self.current_block = self.current_block + 1;
        proof {
            assert(self@ =~= incremented(old(self)@));
        }
    }

    /// Returns the account stored under `address`, creating and storing
    /// the fresh zero account first if there is none. Asking again for
    /// the same address returns the same account and changes nothing.
    pub fn get_or_create_account(&mut self, address: String) -> (r: Account)
        ensures
            r@ == goc_result(old(self)@, address@),
            final(self)@ == goc_state(old(self)@, address@),
    {
        match self.get_account(address.as_str()) {
            Some(account) => account,
            None => {
                let stored = Account {
                    address: address.clone(),
                    balance: String::from_str("0"),
                    nonce: 0,
                    code: None,
                    resources: String::from_str("{}"),
                };
                proof {
                    assert(stored@ =~= fresh_account(address@));
                }
                self.set_account(address.clone(), stored);
                let result = Account {
                    address,
                    balance: String::from_str("0"),
                    nonce: 0,
                    code: None,
                    resources: String::from_str("{}"),
                };
                proof {
                    assert(result@ =~= fresh_account(result.address@));
                    assert(self@ =~= goc_state(old(self)@, result.address@));
                }
                result
            },
        }
    }
}

impl Default for StateManager {
    /// The same empty store `new` builds.
    fn default() -> (s: Self)
        ensures
            s@ == fresh_store(),
    {
        StateManager::new()
    }
}

/// Asking for an account is idempotent: after one `get_or_create_account`
/// for an address, a second ask for the same address returns exactly the
/// account the first one left and leaves the store as it was.
pub proof fn lemma_get_or_create_idempotent(v: StoreView, addr: Seq<char>)
    ensures
        goc_state(goc_state(v, addr), addr) == goc_state(v, addr),
        goc_result(goc_state(v, addr), addr) == goc_result(v, addr),
{
    if !v.accounts.contains_key(addr) {
        assert(goc_state(v, addr).accounts.contains_key(addr));
    }
}

/// The block counter counts increments: `n` increments of a fresh store
/// leave the counter at exactly `n` and everything else untouched.
pub proof fn lemma_counter_counts_increments(n: nat)
    requires
        n <= u64::MAX,
    ensures
        after_increments(fresh_store(), n) == (StoreView {
            current_block: n as u64,
            ..fresh_store()
        }),
    decreases n,
{
    if n > 0 {
        lemma_counter_counts_increments((n - 1) as nat);
    }
}

} // verus!
