//! Record definitions describing transactions and blocks as a blockchain
//! explorer reports them. These are data carriers only: no processing
//! logic reads them here.

use vstd::prelude::*;

verus! {

// Aliases for the cryptographic byte-array types the records carry.
pub type CryptoHash = Vec<u8>;

pub type CryptoPublicKey = Vec<u8>;

pub type CryptoSecretKey = Vec<u8>;

pub type CryptoSignature = Vec<u8>;

pub type CryptoKeyImage = Vec<u8>;

pub type BinaryArray = Vec<u8>;

/// Reason a transaction was removed from the pool.
#[derive(Clone, Debug)]
pub enum TransactionRemoveReason {
    IncludedInBlock,
    Timeout,
}

/// Details of a "to key" transaction output.
#[derive(Clone, Debug)]
pub struct TransactionOutputToKeyDetails {
    pub tx_out_key: CryptoPublicKey,
}

/// Details of a multisignature transaction output.
#[derive(Clone, Debug)]
pub struct TransactionOutputMultisignatureDetails {
    pub keys: Vec<CryptoPublicKey>,
    pub required_signatures: u32,
}

/// The different kinds of transaction output details.
#[derive(Clone, Debug)]
pub enum TransactionOutputDetails {
    ToKey(TransactionOutputToKeyDetails),
    Multisignature(TransactionOutputMultisignatureDetails),
}

/// Reference details for a transaction output.
#[derive(Clone, Debug)]
pub struct TransactionOutputReferenceDetails {
    pub transaction_hash: CryptoHash,
    pub number: usize,
}

/// Details of a "generate" transaction input.
#[derive(Clone, Debug)]
pub struct TransactionInputGenerateDetails {
    pub height: u32,
}

/// Details of a "to key" transaction input.
#[derive(Clone, Debug)]
pub struct TransactionInputToKeyDetails {
    pub output_indexes: Vec<u32>,
    pub key_image: CryptoKeyImage,
    pub mixin: u64,
    pub outputs: Vec<TransactionOutputReferenceDetails>,
}

/// Details of a multisignature transaction input.
#[derive(Clone, Debug)]
pub struct TransactionInputMultisignatureDetails {
    pub signatures: u32,
    pub output: TransactionOutputReferenceDetails,
}

/// The different kinds of transaction input details.
#[derive(Clone, Debug)]
pub enum TransactionInputDetails {
    Generate(TransactionInputGenerateDetails),
    ToKey(TransactionInputToKeyDetails),
    Multisignature(TransactionInputMultisignatureDetails),
}

/// Extra details for a transaction.
#[derive(Clone, Debug)]
pub struct TransactionExtraDetails {
    pub padding: Vec<usize>,
    pub public_key: Vec<CryptoPublicKey>,
    pub nonce: Vec<String>,
    pub raw: Vec<u8>,
    pub from_address: String,
    pub to_address: Vec<String>,
    pub amount: Vec<String>,
    pub version: String,
}

/// Extended extra details for a transaction.
#[derive(Clone, Debug)]
pub struct TransactionExtraDetails2 {
    pub padding: Vec<usize>,
    pub public_key: CryptoPublicKey,
    pub nonce: BinaryArray,
    pub raw: BinaryArray,
    pub from_address: String,
    pub to_address: Vec<String>,
    pub amount: Vec<String>,
    pub tx_key: CryptoSecretKey,
}

/// Full details of a transaction.
#[derive(Clone, Debug)]
pub struct TransactionDetails {
    pub hash: CryptoHash,
    pub size: u64,
    pub fee: u64,
    pub total_inputs_amount: u64,
    pub total_outputs_amount: u64,
    pub mixin: u64,
    pub unlock_time: u64,
    pub timestamp: u64,
    pub version: u8,
    pub payment_id: CryptoHash,
    pub has_payment_id: bool,
    pub in_blockchain: bool,
    pub block_hash: CryptoHash,
    pub block_height: u32,
    pub extra: TransactionExtraDetails2,
    pub signatures: Vec<Vec<CryptoSignature>>,
    pub inputs: Vec<TransactionInputDetails>,
    pub outputs: Vec<TransactionOutputDetails>,
    pub from_address: String,
    pub to_address: Vec<String>,
    pub amount: Vec<String>,
    pub tx_key: CryptoSecretKey,
}

/// Placeholder for the raw transaction output type.
#[derive(Clone, Debug)]
pub struct TransactionOutput;

/// Placeholder for the raw base input type.
#[derive(Clone, Debug)]
pub struct BaseInput;

/// Placeholder for the raw key input type.
#[derive(Clone, Debug)]
pub struct KeyInput;

/// Placeholder for the raw multisignature input type.
#[derive(Clone, Debug)]
pub struct MultisignatureInput;

} // verus!
