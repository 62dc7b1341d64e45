//! The transfer instruction: its account list and its payload.

use vstd::prelude::*;
use solana_sdk::instruction::{AccountMeta, Instruction};
use solana_sdk::pubkey::Pubkey;
use solana_sdk::system_instruction::SystemInstruction;
use crate::ledger::pubkey_from_array;

verus! {

/// Index of the `Transfer` variant among the system program's instructions.
pub const TRANSFER_TAG: u8 = 2;

/// The system program's address: the key of thirty-two zero bytes.
pub open spec fn system_program_key() -> Pubkey {
    pubkey_from_array(Seq::new(32, |i: int| 0u8))
}

/// Byte `i` (least significant first) of `v`.
pub open spec fn le_byte(v: u64, i: int) -> u8 {
    ((v >> ((8 * i) as u64)) & 0xff) as u8
}

/// The eight little-endian bytes of `v`.
pub open spec fn le_bytes(v: u64) -> Seq<u8> {
    Seq::new(8, |i: int| le_byte(v, i))
}

/// The integer whose little-endian bytes are `b[0..8]`.
pub open spec fn u64_from_le(b: Seq<u8>) -> u64 {
    (b[0] as u64) | ((b[1] as u64) << 8u64) | ((b[2] as u64) << 16u64) | ((b[3] as u64) << 24u64)
        | ((b[4] as u64) << 32u64) | ((b[5] as u64) << 40u64) | ((b[6] as u64) << 48u64)
        | ((b[7] as u64) << 56u64)
}

/// The payload of a transfer: the variant index as a little-endian `u32`,
/// then the amount as a little-endian `u64`.
pub open spec fn transfer_payload(lamports: u64) -> Seq<u8> {
    seq![TRANSFER_TAG, 0u8, 0u8, 0u8] + le_bytes(lamports)
}

/// The amount that a payload carries, if it is a transfer's payload.
pub open spec fn decoded_transfer(data: Seq<u8>) -> Option<u64> {
    if data.len() == 12 && data[0] == TRANSFER_TAG && data[1] == 0 && data[2] == 0 && data[3] == 0 {
        Some(u64_from_le(data.subrange(4, 12)))
    } else {
        None
    }
}

/// The account list of a transfer from `from` to `to` with `extras` attached:
/// the payer as a writable signer, the recipient writable, then each extra
/// read-only, in order.
pub open spec fn transfer_accounts(from: Pubkey, to: Pubkey, extras: Seq<Pubkey>) -> Seq<AccountMeta> {
    seq![
        AccountMeta { pubkey: from, is_signer: true, is_writable: true },
        AccountMeta { pubkey: to, is_signer: false, is_writable: true },
    ] + extras.map_values(|k: Pubkey| AccountMeta { pubkey: k, is_signer: false, is_writable: false })
}

/// Relies on solana_program's `Instruction::new_with_bincode` on a
/// `SystemInstruction::Transfer`: bincode writes the variant index 2 as four
/// little-endian bytes and the amount as eight, and the accounts are kept as given.
#[verifier::external_body]
fn system_transfer(program_id: Pubkey, lamports: u64, accounts: Vec<AccountMeta>) -> (r: Instruction)
    ensures
        r.program_id == program_id,
        r.accounts == accounts,
        r.data@ == transfer_payload(lamports),
{
    Instruction::new_with_bincode(program_id, &SystemInstruction::Transfer { lamports }, accounts)
}

/// The system program's transfer of `lamports` from `from_pubkey` to
/// `to_pubkey`, with `extra_addresses` appended as read-only accounts.
pub fn transfer_with(
    from_pubkey: &Pubkey,
    to_pubkey: &Pubkey,
    lamports: u64,
    extra_addresses: &[Pubkey],
) -> (r: Instruction)
    ensures
        r.program_id == system_program_key(),
        r.accounts@ == transfer_accounts(*from_pubkey, *to_pubkey, extra_addresses@),
        r.accounts@.len() == extra_addresses@.len() + 2,
        r.data@ == transfer_payload(lamports),
        decoded_transfer(r.data@) == Some(lamports),
{
    let mut account_metas: Vec<AccountMeta> = Vec::new();
    account_metas.push(AccountMeta { pubkey: *from_pubkey, is_signer: true, is_writable: true });
    account_metas.push(AccountMeta { pubkey: *to_pubkey, is_signer: false, is_writable: true });
    let mut i: usize = 0;
    while i < extra_addresses.len()
        invariant
            i <= extra_addresses@.len(),
            account_metas@ == transfer_accounts(*from_pubkey, *to_pubkey, extra_addresses@.subrange(0, i as int)),
        decreases extra_addresses@.len() - i,
    {
        account_metas.push(AccountMeta { pubkey: extra_addresses[i], is_signer: false, is_writable: false });
        i = i + 1;
        assert(account_metas@ =~= transfer_accounts(*from_pubkey, *to_pubkey, extra_addresses@.subrange(0, i as int)));
    }
    assert(extra_addresses@.subrange(0, i as int) =~= extra_addresses@);
    proof { lemma_transfer_payload_round_trip(lamports); }
    let zeros: [u8; 32] = [0u8; 32];
    assert(zeros@ =~= Seq::new(32, |i: int| 0u8));
    system_transfer(Pubkey::new_from_array(zeros), lamports, account_metas)
}

/// The amount carried by a transfer payload, or `None` where `data` is not one.
pub fn transfer_amount_of(data: &[u8]) -> (r: Option<u64>)
    ensures
        r == decoded_transfer(data@),
{
    if data.len() == 12 && data[0] == TRANSFER_TAG && data[1] == 0 && data[2] == 0 && data[3] == 0 {
        let v: u64 = (data[4] as u64) | ((data[5] as u64) << 8u64) | ((data[6] as u64) << 16u64)
            | ((data[7] as u64) << 24u64) | ((data[8] as u64) << 32u64) | ((data[9] as u64) << 40u64)
            | ((data[10] as u64) << 48u64) | ((data[11] as u64) << 56u64);
        assert(data@.subrange(4, 12)[0] == data@[4]);
        Some(v)
    } else {
        None
    }
}

/// Decoding a transfer payload gives back the amount that was encoded, for
/// every `u64`.
pub proof fn lemma_transfer_payload_round_trip(lamports: u64)
    ensures
        decoded_transfer(transfer_payload(lamports)) == Some(lamports),
{
    let p = transfer_payload(lamports);
    let b = p.subrange(4, 12);
    assert(b =~= le_bytes(lamports));
    let l = lamports;
    assert(
        (((l >> 0u64) & 0xff) as u8 as u64) | ((((l >> 8u64) & 0xff) as u8 as u64) << 8u64)
        | ((((l >> 16u64) & 0xff) as u8 as u64) << 16u64) | ((((l >> 24u64) & 0xff) as u8 as u64) << 24u64)
        | ((((l >> 32u64) & 0xff) as u8 as u64) << 32u64) | ((((l >> 40u64) & 0xff) as u8 as u64) << 40u64)
        | ((((l >> 48u64) & 0xff) as u8 as u64) << 48u64) | ((((l >> 56u64) & 0xff) as u8 as u64) << 56u64)
        == l
    ) by (bit_vector);
}

} // verus!
