//! The wallet boundary: records describing wallet transactions and
//! transfers, and the capabilities a wallet implementation and its
//! observer must offer. Implementations are supplied by users of the
//! library; nothing here runs them.

use vstd::prelude::*;

verus! {

pub type TransactionId = usize;

pub type TransferId = usize;

pub const INVALID_TRANSACTION_ID: TransactionId = usize::MAX;

pub const INVALID_TRANSFER_ID: TransferId = usize::MAX;

pub const UNCONFIRMED_TRANSACTION_HEIGHT: u32 = u32::MAX;

/// Declares `std::io::Error` so the wallet capabilities can report it.
#[verifier::external_type_specification]
#[verifier::external_body]
pub struct ExIoError(std::io::Error);

/// Placeholder for a wallet secret key.
#[derive(Debug, Clone)]
pub struct SecretKey;

/// Placeholder for a wallet hash value.
#[derive(Debug, Clone)]
pub struct Hash;

/// The lifecycle state of a wallet transaction.
#[derive(Debug, Clone, Copy)]
pub enum TransactionState {
    Active,
    Deleted,
    Sending,
    Cancelled,
    Failed,
}

/// One wallet transaction.
#[derive(Debug, Clone)]
pub struct Transaction {
    pub transfer_id: TransferId,
    pub transfer_count: usize,
    pub total_amount: i64,
    pub fee: u64,
    pub sent_time: u64,
    pub unlock_time: u64,
    pub hash: Hash,
    pub secret_key: Option<SecretKey>,
    pub is_coinbase: bool,
    pub block_height: u32,
    pub timestamp: u64,
    pub extra: String,
    pub state: TransactionState,
}

/// One transfer within a transaction.
#[derive(Debug, Clone)]
pub struct Transfer {
    pub address: String,
    pub amount: i64,
}

pub type PaymentId = Hash;

/// The transactions grouped under one payment identifier.
#[derive(Debug, Clone)]
pub struct Payments {
    pub payment_id: PaymentId,
    pub transactions: Vec<Transaction>,
}

/// Callbacks a wallet raises as its long-running work completes.
pub trait WalletObserver {
    fn init_completed(&self, result: Result<(), std::io::Error>);

    fn save_completed(&self, result: Result<(), std::io::Error>);

    fn sync_progress_updated(&self, current: u32, total: u32);

    fn sync_completed(&self, result: Result<(), std::io::Error>);

    fn balance_updated(&self, actual_balance: u64, pending_balance: u64, dust_balance: u64);

    fn transaction_created(&self, transaction_id: TransactionId);

    fn transaction_updated(&self, transaction_id: TransactionId);
}

/// Supporting key material for a wallet account.
pub struct AccountKeys;

/// Placeholder for the stored details of a transaction output.
pub struct TransactionOutputInfo;

/// Placeholder for the stored details of a transaction input.
pub struct TransactionInputInfo;

/// Placeholder for the stored details of a transaction.
pub struct TransactionInfo;

/// Placeholder for a public wallet address.
pub struct AccountPublicAddress;

/// The wallet capability.
pub trait Wallet {
    fn add_observer(&mut self, observer: Box<dyn WalletObserver>);

    fn remove_observer(&mut self, observer: Box<dyn WalletObserver>);

    fn init_with_keys(&mut self, account_keys: &AccountKeys, password: &str);

    /// Serializes the wallet into the destination byte sink.
    fn save(&self, destination: &mut Vec<u8>, detailed: bool, cache: bool) -> Result<
        (),
        std::io::Error,
    >;

    fn change_password(&mut self, old_password: &str, new_password: &str) -> Result<
        (),
        std::io::Error,
    >;

    fn get_address(&self) -> String;

    fn get_balances(&self) -> (u64, u64, u64);

    fn get_transactions(&self) -> Vec<Transaction>;

    fn send_transaction(&mut self, transfer: &Transfer, fee: u64, extra: Option<String>) -> Result<
        TransactionId,
        std::io::Error,
    >;

    fn cancel_transaction(&mut self, transfer_id: TransferId) -> Result<(), std::io::Error>;
}

} // verus!
