//! A transfer under the tax policy: the checks, the classification, and the
//! instructions that carry it out.
//!
//! A sell is a transfer into a registered liquidity-pool token account. A
//! sell between two owners that are not exempt is taxed: it becomes three
//! transfers, the net amount and the two fees. Every other transfer goes
//! through whole. Whoever invokes the instructions must do so in order and
//! within one transaction, so that a failing leg undoes the others.

use crate::account::load_token_account_min;
use crate::account::token_account_fields;
use crate::account::AccountRecord;
use crate::account::AccountRecordView;
use crate::config::Config;
use crate::config::ConfigView;
use crate::error::NineLivesError;
use crate::fees::split_tax;
use crate::fees::tax_split;
use crate::instruction::ix_transfer;
use crate::instruction::transfer_call;
use crate::instruction::InstructionFields;
use crate::ledger::instruction_fields;
use crate::ledger::key_bytes;
use crate::ledger::same_key;
use anchor_lang::prelude::Pubkey;
use anchor_lang::solana_program::instruction::Instruction;
use vstd::prelude::*;

verus! {

/// What a transfer works on.
#[derive(Debug, PartialEq, Eq)]
pub struct TransferWithTax {
    /// Who signs the transfer.
    pub from_authority: Pubkey,
    /// The configuration record.
    pub config: Config,
    /// The token account that pays.
    pub from: AccountRecord,
    /// The token account that receives.
    pub to: AccountRecord,
    /// The token account for the founder's fee.
    pub founder_token: AccountRecord,
    /// The token account for the marketing fee.
    pub marketing_token: AccountRecord,
    /// The token's mint.
    pub mint: Pubkey,
    /// The token program that executes the transfers.
    pub token_program: Pubkey,
}

/// A [`TransferWithTax`] with each key as its bytes.
pub struct TransferWithTaxView {
    pub from_authority: Seq<u8>,
    pub config: ConfigView,
    pub from: AccountRecordView,
    pub to: AccountRecordView,
    pub founder_token: AccountRecordView,
    pub marketing_token: AccountRecordView,
    pub mint: Seq<u8>,
    pub token_program: Seq<u8>,
}

impl View for TransferWithTax {
    type V = TransferWithTaxView;

    open spec fn view(&self) -> TransferWithTaxView {
        TransferWithTaxView {
            from_authority: key_bytes(self.from_authority),
            config: self.config@,
            from: self.from@,
            to: self.to@,
            founder_token: self.founder_token@,
            marketing_token: self.marketing_token@,
            mint: key_bytes(self.mint),
            token_program: key_bytes(self.token_program),
        }
    }
}

/// The content of each instruction of a list, in order.
pub open spec fn instructions_view(ixs: Seq<Instruction>) -> Seq<InstructionFields> {
    ixs.map_values(|ix: Instruction| instruction_fields(ix))
}

impl TransferWithTaxView {
    /// The first check that a transfer of `amount` fails, if any. The
    /// checks come in this order: the amount is not zero; each of the four
    /// token accounts is long enough to be read; each of them belongs to
    /// the mint; the signer owns the source; the two fee accounts belong to
    /// the configured founder and marketing wallets.
    pub open spec fn refusal(self, amount: u64) -> Option<NineLivesError> {
        let from = token_account_fields(self.from.data);
        let to = token_account_fields(self.to.data);
        let founder = token_account_fields(self.founder_token.data);
        let marketing = token_account_fields(self.marketing_token.data);
        if amount == 0 {
            Some(NineLivesError::InvalidAmount)
        } else if from is Err || to is Err || founder is Err || marketing is Err {
            Some(NineLivesError::InvalidAccount)
        } else if from->Ok_0.mint != self.mint || to->Ok_0.mint != self.mint || founder->Ok_0.mint
            != self.mint || marketing->Ok_0.mint != self.mint {
            Some(NineLivesError::InvalidMint)
        } else if from->Ok_0.owner != self.from_authority {
            Some(NineLivesError::Unauthorized)
        } else if founder->Ok_0.owner != self.config.founder_wallet || marketing->Ok_0.owner
            != self.config.marketing_wallet {
            Some(NineLivesError::Unauthorized)
        } else {
            None
        }
    }

    /// Whether the destination is a registered liquidity-pool token
    /// account.
    pub open spec fn is_sell(self) -> bool {
        self.config.is_lp_account(self.to.key)
    }

    /// Whether the owner of the source or of the destination is exempt.
    pub open spec fn either_exempt(self) -> bool {
        let from = token_account_fields(self.from.data);
        let to = token_account_fields(self.to.data);
        self.config.is_exempt(from->Ok_0.owner) || self.config.is_exempt(to->Ok_0.owner)
    }

    /// One transfer out of the source account under the signer's
    /// authority.
    pub open spec fn leg(self, to: Seq<u8>, amount: u64) -> InstructionFields {
        transfer_call(self.token_program, self.from.key, to, self.from_authority, amount)
    }

    /// What a transfer of `amount` comes to: the error of the first check
    /// that fails; for a taxed sell the error of the split or the three
    /// legs (net, founder's fee, marketing fee); else the one leg of the
    /// whole amount.
    pub open spec fn outcome(self, amount: u64) -> Result<Seq<InstructionFields>, NineLivesError> {
        match self.refusal(amount) {
            Some(e) => Err(e),
            None => if self.is_sell() && !self.either_exempt() {
                match tax_split(
                    amount,
                    self.config.tax_bps,
                    self.config.founder_bps,
                    self.config.marketing_bps,
                ) {
                    Err(e) => Err(e),
                    Ok(split) => Ok(
                        seq![
                            self.leg(self.to.key, split.net),
                            self.leg(self.founder_token.key, split.founder_fee),
                            self.leg(self.marketing_token.key, split.marketing_fee),
                        ],
                    ),
                }
            } else {
                Ok(seq![self.leg(self.to.key, amount)])
            },
        }
    }
}

/// Checks a transfer of `amount` and returns the instructions that carry
/// it out, in the order in which they are to be invoked. Nothing is
/// returned unless every check has passed.
pub fn transfer_with_tax(ctx: &TransferWithTax, amount: u64) -> (legs: Result<
    Vec<Instruction>,
    NineLivesError,
>)
    ensures
        match legs {
            Ok(ixs) => ctx@.outcome(amount) == Ok::<Seq<InstructionFields>, NineLivesError>(
                instructions_view(ixs@),
            ),
            Err(e) => ctx@.outcome(amount) == Err::<Seq<InstructionFields>, NineLivesError>(e),
        },
{
    let cfg = &ctx.config;

    if amount == 0 {
        return Err(NineLivesError::InvalidAmount);
    }
    let from_acc = match load_token_account_min(ctx.from.data.as_slice()) {
        Ok(acc) => acc,
        Err(e) => {
            return Err(e);
        },
    };
    let to_acc = match load_token_account_min(ctx.to.data.as_slice()) {
        Ok(acc) => acc,
        Err(e) => {
            return Err(e);
        },
    };
    let founder_acc = match load_token_account_min(ctx.founder_token.data.as_slice()) {
        Ok(acc) => acc,
        Err(e) => {
            return Err(e);
        },
    };
    let marketing_acc = match load_token_account_min(ctx.marketing_token.data.as_slice()) {
        Ok(acc) => acc,
        Err(e) => {
            return Err(e);
        },
    };

    if !same_key(&ctx.mint, &from_acc.mint) || !same_key(&ctx.mint, &to_acc.mint) || !same_key(
        &ctx.mint,
        &founder_acc.mint,
    ) || !same_key(&ctx.mint, &marketing_acc.mint) {
        return Err(NineLivesError::InvalidMint);
    }
    if !same_key(&from_acc.owner, &ctx.from_authority) {
        return Err(NineLivesError::Unauthorized);
    }
    // Fees go to the configured owners only, whatever accounts were handed in.
    if !same_key(&founder_acc.owner, &cfg.founder_wallet) || !same_key(
        &marketing_acc.owner,
        &cfg.marketing_wallet,
    ) {
        return Err(NineLivesError::Unauthorized);
    }

    let either_exempt = cfg.is_exempt(&from_acc.owner) || cfg.is_exempt(&to_acc.owner);
    let is_sell = cfg.is_lp_account(&ctx.to.key);

    let mut legs: Vec<Instruction> = Vec::new();
    if is_sell && !either_exempt {
        let split = match split_tax(amount, cfg.tax_bps, cfg.founder_bps, cfg.marketing_bps) {
            Ok(split) => split,
            Err(e) => {
                return Err(e);
            },
        };
        legs.push(
            ix_transfer(ctx.token_program, ctx.from.key, ctx.to.key, ctx.from_authority, split.net),
        );
        legs.push(
            ix_transfer(
                ctx.token_program,
                ctx.from.key,
                ctx.founder_token.key,
                ctx.from_authority,
                split.founder_fee,
            ),
        );
        legs.push(
            ix_transfer(
                ctx.token_program,
                ctx.from.key,
                ctx.marketing_token.key,
                ctx.from_authority,
                split.marketing_fee,
            ),
        );
        assert(instructions_view(legs@) =~= seq![
            ctx@.leg(ctx@.to.key, split.net),
            ctx@.leg(ctx@.founder_token.key, split.founder_fee),
            ctx@.leg(ctx@.marketing_token.key, split.marketing_fee),
        ]);
    } else {
        legs.push(
            ix_transfer(ctx.token_program, ctx.from.key, ctx.to.key, ctx.from_authority, amount),
        );
        assert(instructions_view(legs@) =~= seq![ctx@.leg(ctx@.to.key, amount)]);
    }
    Ok(legs)
}

} // verus!
