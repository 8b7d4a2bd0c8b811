//! The two operations on the token's supply: a burn that only the ritual
//! vault may ask for, and giving up the mint authority for good.

use crate::account::load_token_account_min;
use crate::account::token_account_fields;
use crate::account::AccountRecord;
use crate::account::AccountRecordView;
use crate::config::Config;
use crate::config::ConfigView;
use crate::error::NineLivesError;
use crate::instruction::burn_call;
use crate::instruction::ix_burn;
use crate::instruction::ix_set_mint_authority_none;
use crate::instruction::set_mint_authority_none_call;
use crate::instruction::InstructionFields;
use crate::ledger::instruction_fields;
use crate::ledger::key_bytes;
use crate::ledger::same_key;
use anchor_lang::prelude::Pubkey;
use anchor_lang::solana_program::instruction::Instruction;
use vstd::prelude::*;

verus! {

/// What a burn works on.
#[derive(Debug, PartialEq, Eq)]
pub struct BurnCtx {
    /// The configuration record.
    pub config: Config,
    /// Who signs the burn.
    pub ritual_vault: Pubkey,
    /// The token account that is burned from.
    pub vault_token: AccountRecord,
    /// The token's mint.
    pub mint: Pubkey,
    /// The token program that executes the burn.
    pub token_program: Pubkey,
}

/// A [`BurnCtx`] with each key as its bytes.
pub struct BurnCtxView {
    pub config: ConfigView,
    pub ritual_vault: Seq<u8>,
    pub vault_token: AccountRecordView,
    pub mint: Seq<u8>,
    pub token_program: Seq<u8>,
}

impl View for BurnCtx {
    type V = BurnCtxView;

    open spec fn view(&self) -> BurnCtxView {
        BurnCtxView {
            config: self.config@,
            ritual_vault: key_bytes(self.ritual_vault),
            vault_token: self.vault_token@,
            mint: key_bytes(self.mint),
            token_program: key_bytes(self.token_program),
        }
    }
}

impl BurnCtxView {
    /// What a burn of `amount` comes to. The checks come in this order: the
    /// amount is not zero; the signer is the configured ritual vault; the
    /// token account is long enough to be read; the signer owns it; it
    /// belongs to the mint. Where all pass, the burn instruction.
    pub open spec fn outcome(self, amount: u64) -> Result<InstructionFields, NineLivesError> {
        if amount == 0 {
            Err(NineLivesError::InvalidAmount)
        } else if self.ritual_vault != self.config.ritual_vault_wallet {
            Err(NineLivesError::Unauthorized)
        } else {
            match token_account_fields(self.vault_token.data) {
                Err(e) => Err(e),
                Ok(vault) => if vault.owner != self.ritual_vault {
                    Err(NineLivesError::Unauthorized)
                } else if vault.mint != self.mint {
                    Err(NineLivesError::InvalidMint)
                } else {
                    Ok(
                        burn_call(
                            self.token_program,
                            self.vault_token.key,
                            self.mint,
                            self.ritual_vault,
                            amount,
                        ),
                    )
                },
            }
        }
    }
}

/// Checks a burn of `amount` from the ritual vault's token account and
/// returns the instruction that carries it out.
pub fn burn(ctx: &BurnCtx, amount: u64) -> (call: Result<Instruction, NineLivesError>)
    ensures
        match call {
            Ok(ix) => ctx@.outcome(amount) == Ok::<InstructionFields, NineLivesError>(
                instruction_fields(ix),
            ),
            Err(e) => ctx@.outcome(amount) == Err::<InstructionFields, NineLivesError>(e),
        },
{
    if amount == 0 {
        return Err(NineLivesError::InvalidAmount);
    }
    let cfg = &ctx.config;
    if !same_key(&ctx.ritual_vault, &cfg.ritual_vault_wallet) {
        return Err(NineLivesError::Unauthorized);
    }
    let vault_acc = match load_token_account_min(ctx.vault_token.data.as_slice()) {
        Ok(acc) => acc,
        Err(e) => {
            return Err(e);
        },
    };
    if !same_key(&vault_acc.owner, &ctx.ritual_vault) {
        return Err(NineLivesError::Unauthorized);
    }
    if !same_key(&vault_acc.mint, &ctx.mint) {
        return Err(NineLivesError::InvalidMint);
    }
    Ok(ix_burn(ctx.token_program, ctx.vault_token.key, ctx.mint, ctx.ritual_vault, amount))
}

/// What giving up the mint authority works on.
#[derive(Clone, Copy, Debug, PartialEq, Eq)]
pub struct LockMintAuthority {
    /// The token's mint.
    pub mint: Pubkey,
    /// Who signs: the mint's current mint authority.
    pub mint_authority: Pubkey,
    /// The token program that executes the call.
    pub token_program: Pubkey,
}

/// Returns the instruction that leaves the mint without a mint authority.
/// Nothing is checked here: the token program accepts the call only from
/// the current mint authority, and nothing can undo it.
pub fn lock_mint_authority(ctx: &LockMintAuthority) -> (ix: Instruction)
    ensures
        instruction_fields(ix) == set_mint_authority_none_call(
            key_bytes(ctx.token_program),
            key_bytes(ctx.mint),
            key_bytes(ctx.mint_authority),
        ),
{
    ix_set_mint_authority_none(ctx.token_program, ctx.mint, ctx.mint_authority)
}

} // verus!
