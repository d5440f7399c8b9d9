//! A second family of explorer record definitions, carrying the raw
//! cryptographic types as placeholders. Data carriers only: no processing
//! logic reads them here.

use vstd::prelude::*;

verus! {

/// Placeholder for the raw transaction output type.
#[derive(Clone, Debug)]
pub struct TransactionOutput;

/// Placeholder for the raw base input type.
#[derive(Clone, Debug)]
pub struct BaseInput;

/// Placeholder for the raw key input type.
#[derive(Clone, Debug)]
pub struct KeyInput;

/// Placeholder for the raw multisignature input type.
#[derive(Clone, Debug)]
pub struct MultisignatureInput;

/// Placeholder for the reference details of a transaction output.
#[derive(Clone, Debug)]
pub struct TransactionOutputReferenceDetails;

/// Placeholder for a public key.
#[derive(Clone, Debug)]
pub struct CryptoPublicKey;

/// A raw byte array.
#[derive(Clone, Debug)]
pub struct BinaryArray(pub Vec<u8>);

/// A raw hash value.
#[derive(Clone, Debug)]
pub struct CryptoHash(pub Vec<u8>);

/// Placeholder for a signature.
#[derive(Clone, Debug)]
pub struct CryptoSignature;

/// Transaction output details, including the associated global index.
pub struct TransactionOutputDetails {
    pub output: TransactionOutput,
    pub global_index: u64,
}

/// Base input details, including the input and amount.
pub struct BaseInputDetails {
    pub input: BaseInput,
    pub amount: u64,
}

/// Key input details, including mixin and associated outputs.
pub struct KeyInputDetails {
    pub input: KeyInput,
    pub mixin: u64,
    pub outputs: Vec<TransactionOutputReferenceDetails>,
}

/// Multisignature input details, including the output reference.
pub struct MultisignatureInputDetails {
    pub input: MultisignatureInput,
    pub output: TransactionOutputReferenceDetails,
}

/// The different kinds of transaction inputs.
pub enum TransactionInputDetails {
    BaseInputDetails(BaseInputDetails),
    KeyInputDetails(KeyInputDetails),
    MultisignatureInputDetails(MultisignatureInputDetails),
}

/// Additional details for transaction extra information.
pub struct TransactionExtraDetails {
    pub public_key: CryptoPublicKey,
    pub nonce: BinaryArray,
    pub raw: BinaryArray,
    pub from_address: String,
    pub to_address: Vec<String>,
    pub amount: Vec<String>,
    pub version: String,
}

/// Main transaction details record.
pub struct TransactionDetails {
    pub hash: CryptoHash,
    pub size: u64,
    pub fee: u64,
    pub total_inputs_amount: u64,
    pub total_outputs_amount: u64,
    pub mixin: u64,
    pub unlock_time: u64,
    pub timestamp: u64,
    pub payment_id: CryptoHash,
    pub has_payment_id: bool,
    pub in_blockchain: bool,
    pub block_hash: CryptoHash,
    pub block_height: u32,
    pub extra: TransactionExtraDetails,
    pub signatures: Vec<Vec<CryptoSignature>>,
    pub inputs: Vec<TransactionInputDetails>,
    pub outputs: Vec<TransactionOutputDetails>,
    pub from_address: String,
    pub to_address: Vec<String>,
    pub amount: Vec<String>,
}

} // verus!
