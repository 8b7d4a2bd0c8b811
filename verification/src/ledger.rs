//! The ledger's own types, as far as this library touches them.
//!
//! Keys, account metas and instructions are values of the ledger's crate.
//! Nothing in this file is proved: it says what those values hold and what
//! their constructors return, and the rest of the library is verified
//! against exactly that.

use anchor_lang::prelude::AccountMeta;
use anchor_lang::prelude::Pubkey;
use anchor_lang::solana_program::instruction::Instruction;
use vstd::prelude::*;

verus! {

/// `Pubkey`, the ledger's 32-byte identity of a wallet, an account or a
/// program. Opaque here; [`key_bytes`] names its content.
#[verifier::external_type_specification]
#[verifier::external_body]
pub struct ExPubkey(anchor_lang::prelude::Pubkey);

/// `AccountMeta`, one entry of an instruction's account list. Opaque here;
/// [`meta_fields`] names its content.
#[verifier::external_type_specification]
#[verifier::external_body]
pub struct ExAccountMeta(anchor_lang::prelude::AccountMeta);

/// `Instruction`, a call to a program of the ledger. Opaque here;
/// [`instruction_fields`] names its content.
#[verifier::external_type_specification]
#[verifier::external_body]
pub struct ExInstruction(anchor_lang::solana_program::instruction::Instruction);

/// The byte array that a `Pubkey` wraps, its only field.
pub uninterp spec fn key_bytes(key: Pubkey) -> Seq<u8>;

/// The three public fields of an `AccountMeta`, in their declared order:
/// the bytes of `pubkey`, then `is_signer`, then `is_writable`.
pub uninterp spec fn meta_fields(meta: AccountMeta) -> (Seq<u8>, bool, bool);

/// The three public fields of an `Instruction`, in their declared order:
/// the bytes of `program_id`, then `accounts` with each entry as
/// [`meta_fields`] gives it, then `data`.
pub uninterp spec fn instruction_fields(ix: Instruction) -> (
    Seq<u8>,
    Seq<(Seq<u8>, bool, bool)>,
    Seq<u8>,
);

/// The content of each entry of an account list, in order.
pub open spec fn account_list_fields(accounts: Seq<AccountMeta>) -> Seq<(Seq<u8>, bool, bool)> {
    accounts.map_values(|meta: AccountMeta| meta_fields(meta))
}

/// `Pubkey::new_from_array` wraps the array it is given, unchanged.
pub assume_specification[ Pubkey::new_from_array ](pubkey_array: [u8; 32]) -> (key: Pubkey)
    ensures
        key_bytes(key) == pubkey_array@,
;

/// `AccountMeta::new` keeps the key and the signer flag and marks the
/// account writable.
pub assume_specification[ AccountMeta::new ](pubkey: Pubkey, is_signer: bool) -> (meta:
    AccountMeta)
    ensures
        meta_fields(meta) == (key_bytes(pubkey), is_signer, true),
;

/// `AccountMeta::new_readonly` keeps the key and the signer flag and marks
/// the account read-only.
pub assume_specification[ AccountMeta::new_readonly ](pubkey: Pubkey, is_signer: bool) -> (meta:
    AccountMeta)
    ensures
        meta_fields(meta) == (key_bytes(pubkey), is_signer, false),
;

/// `Instruction::new_with_bytes` stores the program id and the account list
/// as given and copies the data bytes.
pub assume_specification[ Instruction::new_with_bytes ](
    program_id: Pubkey,
    data: &[u8],
    accounts: Vec<AccountMeta>,
) -> (ix: Instruction)
    ensures
        instruction_fields(ix) == (
            key_bytes(program_id),
            account_list_fields(accounts@),
            data@,
        ),
;

/// `==` on two `Pubkey`s, which the ledger's crate derives: it compares the
/// wrapped byte arrays.
#[verifier::external_body]
pub(crate) fn same_key(a: &Pubkey, b: &Pubkey) -> (same: bool)
    ensures
        same == (key_bytes(*a) == key_bytes(*b)),
{
    a == b
}

} // verus!
