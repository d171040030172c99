//! The data model of the ledger: transactions, receipts, blocks, accounts,
//! and the resource changes a simulated transaction produces.

use vstd::prelude::*;

verus! {

/// The category of a transaction, as far as the cost and resource tables
/// distinguish them.
#[derive(Clone, Copy, Debug, PartialEq, Eq, Structural)]
pub enum TransactionType {
    Transfer,
    Swap,
    Mint,
    Burn,
    Deploy,
    Call,
}

/// How a transaction touches a resource.
#[derive(Clone, Copy, Debug, PartialEq, Eq, Structural)]
pub enum ChangeType {
    Create,
    Update,
    Delete,
}

/// The outcome of executing one transaction.
#[derive(Clone, Copy, Debug, PartialEq, Eq, Structural)]
pub enum ExecutionStatus {
    Success,
    Failed,
    Reverted,
}

/// A full transaction record.
#[derive(Clone, Debug)]
pub struct Transaction {
    pub hash: String,
    pub from: String,
    pub to: String,
    pub value: String,
    pub gas_limit: u64,
    pub gas_price: Option<String>,
    pub data: String,
    pub nonce: u64,
    pub tx_type: TransactionType,
}

/// One entry of a receipt's event log.
#[derive(Clone, Debug)]
pub struct Log {
    pub address: String,
    pub topics: Vec<String>,
    pub data: String,
}

/// One abstract resource touched by a transaction: the `resource_type`
/// name is the key under which contention is detected.
#[derive(Clone, Debug)]
pub struct ResourceChange {
    pub address: String,
    pub resource_type: String,
    pub change_type: ChangeType,
    pub data: String,
}

/// The stored record of an executed transaction, keyed by its hash.
#[derive(Clone, Debug)]
pub struct TransactionReceipt {
    pub hash: String,
    pub status: ExecutionStatus,
    pub gas_used: u64,
    pub block_number: u64,
    pub logs: Vec<Log>,
    pub resource_changes: Vec<ResourceChange>,
}

/// A block of the chain, keyed by its number.
#[derive(Clone, Debug)]
pub struct Block {
    pub number: u64,
    pub hash: String,
    pub parent_hash: String,
    pub timestamp: u64,
    pub transactions: Vec<String>,
    pub state_root: String,
}

/// An account of the ledger, keyed by its address. The balance is kept as
/// a decimal string and the resource bag as opaque text.
#[derive(Clone, Debug)]
pub struct Account {
    pub address: String,
    pub balance: String,
    pub nonce: u64,
    pub code: Option<String>,
    pub resources: String,
}

/// Mathematical image of a `ResourceChange`.
pub struct ResourceChangeView {
    pub address: Seq<char>,
    pub resource_type: Seq<char>,
    pub change_type: ChangeType,
    pub data: Seq<char>,
}

/// Mathematical image of a `Log`.
pub struct LogView {
    pub address: Seq<char>,
    pub topics: Seq<Seq<char>>,
    pub data: Seq<char>,
}

/// Mathematical image of a `TransactionReceipt`.
pub struct TransactionReceiptView {
    pub hash: Seq<char>,
    pub status: ExecutionStatus,
    pub gas_used: u64,
    pub block_number: u64,
    pub logs: Seq<LogView>,
    pub resource_changes: Seq<ResourceChangeView>,
}

/// Mathematical image of a `Block`.
pub struct BlockView {
    pub number: u64,
    pub hash: Seq<char>,
    pub parent_hash: Seq<char>,
    pub timestamp: u64,
    pub transactions: Seq<Seq<char>>,
    pub state_root: Seq<char>,
}

/// Mathematical image of an `Account`.
pub struct AccountView {
    pub address: Seq<char>,
    pub balance: Seq<char>,
    pub nonce: u64,
    pub code: Option<Seq<char>>,
    pub resources: Seq<char>,
}

pub open spec fn opt_string_view(o: Option<String>) -> Option<Seq<char>> {
    match o {
        Some(s) => Some(s@),
        None => None,
    }
}

impl View for ResourceChange {
    type V = ResourceChangeView;

    open spec fn view(&self) -> ResourceChangeView {
        ResourceChangeView {
            address: self.address@,
            resource_type: self.resource_type@,
            change_type: self.change_type,
            data: self.data@,
        }
    }
}

impl View for Log {
    type V = LogView;

    open spec fn view(&self) -> LogView {
        LogView {
            address: self.address@,
            topics: self.topics.deep_view(),
            data: self.data@,
        }
    }
}

impl View for TransactionReceipt {
    type V = TransactionReceiptView;

    open spec fn view(&self) -> TransactionReceiptView {
        TransactionReceiptView {
            hash: self.hash@,
            status: self.status,
            gas_used: self.gas_used,
            block_number: self.block_number,
            logs: self.logs@.map_values(|l: Log| l@),
            resource_changes: self.resource_changes@.map_values(|c: ResourceChange| c@),
        }
    }
}

impl View for Block {
    type V = BlockView;

    open spec fn view(&self) -> BlockView {
        BlockView {
            number: self.number,
            hash: self.hash@,
            parent_hash: self.parent_hash@,
            timestamp: self.timestamp,
            transactions: self.transactions.deep_view(),
            state_root: self.state_root@,
        }
    }
}

impl View for Account {
    type V = AccountView;

    open spec fn view(&self) -> AccountView {
        AccountView {
            address: self.address@,
            balance: self.balance@,
            nonce: self.nonce,
            code: opt_string_view(self.code),
            resources: self.resources@,
        }
    }
}

} // verus!
