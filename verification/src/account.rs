//! The two identities that a token account record starts with.
//!
//! The ledger lays a token account out as the mint's key in the first 32
//! bytes and the owner's key in the next 32. Only that much is read here.

use crate::error::NineLivesError;
use crate::ledger::key_bytes;
use anchor_lang::prelude::Pubkey;
use vstd::prelude::*;

verus! {

/// Length of a key in bytes.
pub const KEY_LEN: usize = 32;

/// Where the mint's key starts in a token account record.
pub const MINT_OFFSET: usize = 0;

/// Where the owner's key starts in a token account record.
pub const OWNER_OFFSET: usize = 32;

/// The shortest record that holds both keys.
pub const MIN_TOKEN_ACCOUNT_LEN: usize = 64;

/// An account as an operation is handed it: its address and its raw data.
#[derive(Debug, PartialEq, Eq)]
pub struct AccountRecord {
    /// The account's address.
    pub key: Pubkey,
    /// The account's data, as the ledger stores it.
    pub data: Vec<u8>,
}

/// An [`AccountRecord`] with the address as its bytes.
pub struct AccountRecordView {
    pub key: Seq<u8>,
    pub data: Seq<u8>,
}

impl View for AccountRecord {
    type V = AccountRecordView;

    open spec fn view(&self) -> AccountRecordView {
        AccountRecordView { key: key_bytes(self.key), data: self.data@ }
    }
}

/// The mint and the owner of a token account.
#[derive(Clone, Copy, Debug, PartialEq, Eq)]
pub struct MinTokenAccount {
    pub mint: Pubkey,
    pub owner: Pubkey,
}

/// A [`MinTokenAccount`] with each key as its bytes.
pub struct MinTokenAccountView {
    pub mint: Seq<u8>,
    pub owner: Seq<u8>,
}

impl View for MinTokenAccount {
    type V = MinTokenAccountView;

    open spec fn view(&self) -> MinTokenAccountView {
        MinTokenAccountView { mint: key_bytes(self.mint), owner: key_bytes(self.owner) }
    }
}

/// What a token account record says of its mint and owner: the two byte
/// ranges, or `InvalidAccount` where the record is too short to hold them.
pub open spec fn token_account_fields(data: Seq<u8>) -> Result<
    MinTokenAccountView,
    NineLivesError,
> {
    if data.len() < 64 {
        Err(NineLivesError::InvalidAccount)
    } else {
        Ok(MinTokenAccountView { mint: data.subrange(0, 32), owner: data.subrange(32, 64) })
    }
}

/// The key whose bytes are the 32 bytes of `data` from `offset` on.
fn read_key(data: &[u8], offset: usize) -> (key: Pubkey)
    requires
        offset + 32 <= data@.len(),
    ensures
        key_bytes(key) == data@.subrange(offset as int, offset + 32),
{
    let len = data.len();
    let mut bytes = [0u8; KEY_LEN];
    let mut i: usize = 0;
    while i < KEY_LEN
        invariant
            i <= 32,
            len == data@.len(),
            offset + 32 <= len,
            forall|j: int| 0 <= j < i ==> bytes@[j] == data@[offset + j],
        decreases 32 - i,
    {
        bytes[i] = data[offset + i];
        i += 1;
    }
    Pubkey::new_from_array(bytes)
}

/// Reads the mint and the owner from the raw data of a token account.
/// Bytes beyond the first 64 are not looked at.
pub fn load_token_account_min(data: &[u8]) -> (account: Result<MinTokenAccount, NineLivesError>)
    ensures
        match account {
            Ok(fields) => token_account_fields(data@) == Ok::<MinTokenAccountView, NineLivesError>(
                fields@,
            ),
            Err(e) => token_account_fields(data@) == Err::<MinTokenAccountView, NineLivesError>(e),
        },
{
    if data.len() < MIN_TOKEN_ACCOUNT_LEN {
        return Err(NineLivesError::InvalidAccount);
    }
    let mint = read_key(data, MINT_OFFSET);
    let owner = read_key(data, OWNER_OFFSET);
    Ok(MinTokenAccount { mint, owner })
}

} // verus!
