//! The ledger's own types, as solana_sdk defines them, made known to Verus.

use vstd::prelude::*;
use solana_sdk::hash;
use solana_sdk::instruction::{AccountMeta, CompiledInstruction, Instruction};
use solana_sdk::message::{Message, MessageHeader};
use solana_sdk::pubkey::Pubkey;
use solana_sdk::signature::Signature;
use solana_sdk::signer::SignerError;
use solana_sdk::transaction::Transaction;

verus! {

#[verifier::external_type_specification]
#[verifier::external_body]
pub struct ExPubkey(Pubkey);

#[verifier::external_type_specification]
pub struct ExAccountMeta(AccountMeta);

#[verifier::external_type_specification]
pub struct ExInstruction(Instruction);

#[verifier::external_type_specification]
#[verifier::external_body]
pub struct ExHash(hash::Hash);

#[verifier::external_type_specification]
#[verifier::external_body]
pub struct ExSignature(Signature);

#[verifier::external_type_specification]
#[verifier::external_body]
pub struct ExTryFromSliceError(core::array::TryFromSliceError);

#[verifier::external_type_specification]
#[verifier::external_body]
pub struct ExSignerError(SignerError);

#[verifier::external_type_specification]
pub struct ExCompiledInstruction(CompiledInstruction);

#[verifier::external_type_specification]
pub struct ExMessageHeader(MessageHeader);

#[verifier::external_type_specification]
pub struct ExMessage(Message);

#[verifier::external_type_specification]
pub struct ExTransaction(Transaction);

/// The key that `Pubkey::new_from_array` makes of thirty-two bytes.
pub uninterp spec fn pubkey_from_array(bytes: Seq<u8>) -> Pubkey;

/// Relies on solana_program's `Pubkey::new_from_array`: the key depends on its bytes alone.
pub assume_specification[ Pubkey::new_from_array ](pubkey_array: [u8; 32]) -> (r: Pubkey)
    ensures
        r == pubkey_from_array(pubkey_array@),
;

} // verus!
