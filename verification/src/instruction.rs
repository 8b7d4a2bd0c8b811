//! The three calls this library makes to the token program, as
//! instructions: transfer, burn, and giving up the mint authority.

use crate::ledger::account_list_fields;
use crate::ledger::instruction_fields;
use crate::ledger::key_bytes;
use anchor_lang::prelude::AccountMeta;
use anchor_lang::prelude::Pubkey;
use anchor_lang::solana_program::instruction::Instruction;
use vstd::prelude::*;

verus! {

/// Opcode of the token program's transfer.
pub const TRANSFER_TAG: u8 = 3;

/// Opcode of the token program's set-authority.
pub const SET_AUTHORITY_TAG: u8 = 6;

/// Opcode of the token program's burn.
pub const BURN_TAG: u8 = 8;

/// The authority type "mint tokens" in a set-authority payload.
pub const AUTHORITY_MINT_TOKENS: u8 = 0;

/// The option flag "no new authority" in a set-authority payload.
pub const NEW_AUTHORITY_NONE: u8 = 0;

/// An account list entry: key bytes, signer flag, writable flag.
pub type MetaFields = (Seq<u8>, bool, bool);

/// An instruction: program id bytes, account list, data.
pub type InstructionFields = (Seq<u8>, Seq<MetaFields>, Seq<u8>);

/// The entry for an account that the call may change and that does not
/// sign.
pub open spec fn writable(key: Seq<u8>) -> MetaFields {
    (key, false, true)
}

/// The entry for an account that signs and is only read.
pub open spec fn readonly_signer(key: Seq<u8>) -> MetaFields {
    (key, true, false)
}

/// The eight bytes of `amount`, least significant first.
pub open spec fn le_bytes(amount: u64) -> Seq<u8> {
    seq![
        (amount % 0x100) as u8,
        (amount / 0x100 % 0x100) as u8,
        (amount / 0x1_0000 % 0x100) as u8,
        (amount / 0x100_0000 % 0x100) as u8,
        (amount / 0x1_0000_0000 % 0x100) as u8,
        (amount / 0x100_0000_0000 % 0x100) as u8,
        (amount / 0x1_0000_0000_0000 % 0x100) as u8,
        (amount / 0x100_0000_0000_0000 % 0x100) as u8,
    ]
}

/// A transfer of `amount` from one token account to another, signed by the
/// source's authority.
pub open spec fn transfer_call(
    program_id: Seq<u8>,
    from: Seq<u8>,
    to: Seq<u8>,
    authority: Seq<u8>,
    amount: u64,
) -> InstructionFields {
    (
        program_id,
        seq![writable(from), writable(to), readonly_signer(authority)],
        seq![TRANSFER_TAG] + le_bytes(amount),
    )
}

/// A burn of `amount` from a token account of the given mint, signed by the
/// account's authority.
pub open spec fn burn_call(
    program_id: Seq<u8>,
    account: Seq<u8>,
    mint: Seq<u8>,
    authority: Seq<u8>,
    amount: u64,
) -> InstructionFields {
    (
        program_id,
        seq![writable(account), writable(mint), readonly_signer(authority)],
        seq![BURN_TAG] + le_bytes(amount),
    )
}

/// The call that sets a mint's mint authority to none, signed by the
/// current authority.
pub open spec fn set_mint_authority_none_call(
    program_id: Seq<u8>,
    mint: Seq<u8>,
    current_authority: Seq<u8>,
) -> InstructionFields {
    (
        program_id,
        seq![writable(mint), readonly_signer(current_authority)],
        seq![SET_AUTHORITY_TAG, AUTHORITY_MINT_TOKENS, NEW_AUTHORITY_NONE],
    )
}

/// The bytes of [`le_bytes`] are the base-256 digits of the amount: read
/// back with their weights they give the amount again.
pub proof fn lemma_le_bytes_value(amount: u64)
    ensures
        le_bytes(amount).len() == 8,
        amount == le_bytes(amount)[0] + 0x100 * le_bytes(amount)[1] + 0x1_0000 * le_bytes(
            amount,
        )[2] + 0x100_0000 * le_bytes(amount)[3] + 0x1_0000_0000 * le_bytes(amount)[4]
            + 0x100_0000_0000 * le_bytes(amount)[5] + 0x1_0000_0000_0000 * le_bytes(amount)[6]
            + 0x100_0000_0000_0000 * le_bytes(amount)[7],
{
    // Each digit is what is left of the quotient by the weight before it.
    let q1 = amount / 0x100;
    let q2 = q1 / 0x100;
    let q3 = q2 / 0x100;
    let q4 = q3 / 0x100;
    let q5 = q4 / 0x100;
    let q6 = q5 / 0x100;
    let q7 = q6 / 0x100;
    assert(q2 == amount / 0x1_0000);
    assert(q3 == amount / 0x100_0000);
    assert(q4 == amount / 0x1_0000_0000);
    assert(q5 == amount / 0x100_0000_0000);
    assert(q6 == amount / 0x1_0000_0000_0000);
    assert(q7 == amount / 0x100_0000_0000_0000);
    assert(q7 < 0x100);
}

/// Appends the eight bytes of `amount`, least significant first.
fn push_le_bytes(data: &mut Vec<u8>, amount: u64)
    ensures
        final(data)@ == old(data)@ + le_bytes(amount),
{
    data.push((amount % 0x100) as u8);
    data.push((amount / 0x100 % 0x100) as u8);
    data.push((amount / 0x1_0000 % 0x100) as u8);
    data.push((amount / 0x100_0000 % 0x100) as u8);
    data.push((amount / 0x1_0000_0000 % 0x100) as u8);
    data.push((amount / 0x100_0000_0000 % 0x100) as u8);
    data.push((amount / 0x1_0000_0000_0000 % 0x100) as u8);
    data.push((amount / 0x100_0000_0000_0000 % 0x100) as u8);
}

/// The account list of a call on two writable accounts and a signing
/// authority.
fn two_accounts_and_authority(first: Pubkey, second: Pubkey, authority: Pubkey) -> (accounts: Vec<
    AccountMeta,
>)
    ensures
        account_list_fields(accounts@) == seq![
            writable(key_bytes(first)),
            writable(key_bytes(second)),
            readonly_signer(key_bytes(authority)),
        ],
{
    let mut accounts: Vec<AccountMeta> = Vec::with_capacity(3);
    accounts.push(AccountMeta::new(first, false));
    accounts.push(AccountMeta::new(second, false));
    accounts.push(AccountMeta::new_readonly(authority, true));
    accounts
}

/// Builds the token program's transfer of `amount` from `from` to `to`.
pub fn ix_transfer(
    program_id: Pubkey,
    from: Pubkey,
    to: Pubkey,
    authority: Pubkey,
    amount: u64,
) -> (ix: Instruction)
    ensures
        instruction_fields(ix) == transfer_call(
            key_bytes(program_id),
            key_bytes(from),
            key_bytes(to),
            key_bytes(authority),
            amount,
        ),
{
    let mut data: Vec<u8> = Vec::with_capacity(1 + 8);
    data.push(TRANSFER_TAG);
    push_le_bytes(&mut data, amount);
    let accounts = two_accounts_and_authority(from, to, authority);
    Instruction::new_with_bytes(program_id, data.as_slice(), accounts)
}

/// Builds the token program's burn of `amount` from `account`.
pub fn ix_burn(
    program_id: Pubkey,
    account: Pubkey,
    mint: Pubkey,
    authority: Pubkey,
    amount: u64,
) -> (ix: Instruction)
    ensures
        instruction_fields(ix) == burn_call(
            key_bytes(program_id),
            key_bytes(account),
            key_bytes(mint),
            key_bytes(authority),
            amount,
        ),
{
    let mut data: Vec<u8> = Vec::with_capacity(1 + 8);
    data.push(BURN_TAG);
    push_le_bytes(&mut data, amount);
    let accounts = two_accounts_and_authority(account, mint, authority);
    Instruction::new_with_bytes(program_id, data.as_slice(), accounts)
}

/// Builds the token program's set-authority that leaves `account_or_mint`
/// without a mint authority.
pub fn ix_set_mint_authority_none(
    program_id: Pubkey,
    account_or_mint: Pubkey,
    current_authority: Pubkey,
) -> (ix: Instruction)
    ensures
        instruction_fields(ix) == set_mint_authority_none_call(
            key_bytes(program_id),
            key_bytes(account_or_mint),
            key_bytes(current_authority),
        ),
{
    let mut data: Vec<u8> = Vec::with_capacity(3);
    data.push(SET_AUTHORITY_TAG);
    data.push(AUTHORITY_MINT_TOKENS);
    data.push(NEW_AUTHORITY_NONE);
    let mut accounts: Vec<AccountMeta> = Vec::with_capacity(2);
    accounts.push(AccountMeta::new(account_or_mint, false));
    accounts.push(AccountMeta::new_readonly(current_authority, true));
    Instruction::new_with_bytes(program_id, data.as_slice(), accounts)
}

} // verus!
