//! Assembly of the transfer into a message and a transaction, and its signing.

use vstd::prelude::*;
use solana_sdk::hash;
use solana_sdk::instruction::Instruction;
use solana_sdk::message::Message;
use solana_sdk::pubkey::Pubkey;
use solana_sdk::signer::SignerError;
use solana_sdk::signers::Signers;
use solana_sdk::transaction::Transaction;
use crate::instruction::{decoded_transfer, system_program_key, transfer_accounts, transfer_with};

verus! {

/// Most extra accounts that a transfer can carry: with the payer, the
/// recipient and the system program, each count that a message header keeps
/// then fits in a byte.
pub const MAX_EXTRA_ADDRESSES: usize = 252;

/// Relies on solana_program's `Message::new`: the payer's key comes first,
/// the one instruction keeps its payload, its program and each of its accounts
/// are compiled to the index of their key, and where the payer is the only
/// signer the header asks for one signature, from a writable account. Key
/// compilation panics past 255 keys of one kind, which the bound on the
/// instruction's accounts rules out.
#[verifier::external_body]
fn compile_message(instruction: Instruction, payer: &Pubkey) -> (r: Message)
    requires
        instruction.accounts@.len() <= MAX_EXTRA_ADDRESSES + 2,
    ensures
        r.account_keys@.len() >= 1,
        r.account_keys@[0] == *payer,
        r.instructions@.len() == 1,
        r.instructions@[0].data == instruction.data,
        (r.instructions@[0].program_id_index as int) < r.account_keys@.len(),
        r.account_keys@[r.instructions@[0].program_id_index as int] == instruction.program_id,
        r.instructions@[0].accounts@.len() == instruction.accounts@.len(),
        forall|i: int|
            0 <= i < instruction.accounts@.len() ==> {
                let k = #[trigger] r.instructions@[0].accounts@[i] as int;
                &&& k < r.account_keys@.len()
                &&& r.account_keys@[k] == instruction.accounts@[i].pubkey
            },
        (forall|i: int|
            0 <= i < instruction.accounts@.len() && (#[trigger] instruction.accounts@[i]).is_signer
                ==> instruction.accounts@[i].pubkey == *payer) ==> r.header.num_required_signatures
            == 1 && r.header.num_readonly_signed_accounts == 0,
{
    Message::new(&[instruction], Some(payer))
}

/// Relies on solana_sdk's `Transaction::new_unsigned`: the message is kept and
/// one empty signature stands for each signature that its header asks for.
#[verifier::external_body]
fn unsigned_transaction(message: Message) -> (r: Transaction)
    ensures
        r.message == message,
        r.signatures@.len() == message.header.num_required_signatures,
{
    Transaction::new_unsigned(message)
}

/// Relies on solana_sdk's `Transaction::try_sign`: it replaces the blockhash
/// and fills in signatures, and leaves the keys, header and instructions alone.
#[verifier::external_body]
fn try_sign_with<T: Signers + ?Sized>(tx: &mut Transaction, signers: &T, blockhash: hash::Hash) -> (r: Result<(), SignerError>)
    requires
        old(tx).signatures@.len() == old(tx).message.header.num_required_signatures,
    ensures
        final(tx).signatures@.len() == old(tx).signatures@.len(),
        final(tx).message.account_keys == old(tx).message.account_keys,
        final(tx).message.header == old(tx).message.header,
        final(tx).message.instructions == old(tx).message.instructions,
        r is Ok ==> final(tx).message.recent_blockhash == blockhash,
{
    tx.try_sign(signers, blockhash)
}

/// Relies on `SignerError`'s `Display` impl, through `ToString`.
#[verifier::external_body]
fn describe_signer_error(e: &SignerError) -> (r: String) {
    e.to_string()
}

/// The key that the compiled instruction `ci` of `tx` names at position `i`
/// of its account list.
pub open spec fn compiled_account(tx: Transaction, ci: int, i: int) -> Pubkey {
    tx.message.account_keys@[tx.message.instructions@[ci].accounts@[i] as int]
}

/// What a transaction built by `transfer_transaction` holds: the payer first
/// among the keys and the only signer, writable, and one instruction that
/// carries `lamports` to the system program and names the payer twice, then
/// each of `extras` in order.
pub open spec fn is_transfer_transaction(tx: Transaction, payer: Pubkey, lamports: u64, extras: Seq<Pubkey>) -> bool {
    &&& tx.message.account_keys@.len() >= 1
    &&& tx.message.account_keys@[0] == payer
    &&& tx.message.header.num_required_signatures == 1
    &&& tx.message.header.num_readonly_signed_accounts == 0
    &&& tx.message.instructions@.len() == 1
    &&& decoded_transfer(tx.message.instructions@[0].data@) == Some(lamports)
    &&& tx.message.account_keys@[tx.message.instructions@[0].program_id_index as int] == system_program_key()
    &&& tx.message.instructions@[0].accounts@.len() == extras.len() + 2
    &&& compiled_account(tx, 0, 0) == payer
    &&& compiled_account(tx, 0, 1) == payer
    &&& forall|j: int| 0 <= j < extras.len() ==> #[trigger] compiled_account(tx, 0, j + 2) == extras[j]
    &&& tx.signatures@.len() == 1
}

/// The unsigned transaction in which `payer` sends `lamports` to itself,
/// with `extra_addresses` attached read-only to the transfer.
pub fn transfer_transaction(payer: &Pubkey, lamports: u64, extra_addresses: &[Pubkey]) -> (r: Transaction)
    requires
        extra_addresses@.len() <= MAX_EXTRA_ADDRESSES,
    ensures
        is_transfer_transaction(r, *payer, lamports, extra_addresses@),
{
    let instruction = transfer_with(payer, payer, lamports, extra_addresses);
    assert forall|i: int|
        0 <= i < instruction.accounts@.len() && (#[trigger] instruction.accounts@[i]).is_signer
            implies instruction.accounts@[i].pubkey == *payer by {
        assert(instruction.accounts@ == transfer_accounts(*payer, *payer, extra_addresses@));
        if i >= 2 {
            assert(instruction.accounts@[i] == transfer_accounts(*payer, *payer, extra_addresses@)[i]);
        }
    }
    let ghost accounts = instruction.accounts@;
    let message = compile_message(instruction, payer);
    let tx = unsigned_transaction(message);
    assert(accounts == transfer_accounts(*payer, *payer, extra_addresses@));
    assert forall|j: int| 0 <= j < extra_addresses@.len() implies #[trigger] compiled_account(tx, 0, j + 2)
        == extra_addresses@[j] by {
        assert(accounts[j + 2] == transfer_accounts(*payer, *payer, extra_addresses@)[j + 2]);
        assert(tx.message.instructions@[0].accounts@[j + 2] == message.instructions@[0].accounts@[j + 2]);
    }
    assert(compiled_account(tx, 0, 0) == accounts[0].pubkey);
    assert(compiled_account(tx, 0, 1) == accounts[1].pubkey);
    tx
}

/// Signs `tx` against `blockhash` with `signers`. A refusal is reported as
/// the signing error, with the signer's own words.
pub fn sign_transaction<T: Signers + ?Sized>(tx: &mut Transaction, signers: &T, blockhash: hash::Hash) -> (r: Result<(), String>)
    requires
        old(tx).signatures@.len() == old(tx).message.header.num_required_signatures,
    ensures
        final(tx).signatures@.len() == old(tx).signatures@.len(),
        final(tx).message.account_keys == old(tx).message.account_keys,
        final(tx).message.header == old(tx).message.header,
        final(tx).message.instructions == old(tx).message.instructions,
        r is Ok ==> final(tx).message.recent_blockhash == blockhash,
{
    match try_sign_with(tx, signers, blockhash) {
        Ok(()) => Ok(()),
        Err(e) => Err(describe_signer_error(&e)),
    }
}

} // verus!
