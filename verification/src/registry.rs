//! Creating the configuration record and changing its two registries.
//!
//! Each operation takes the accounts it works on as one value: the caller's
//! key and the record. A refused operation leaves that value as it was.

use crate::config::core_wallets;
use crate::config::initial_config;
use crate::config::Config;
use crate::config::ConfigView;
use crate::config::DEFAULT_FOUNDER_BPS;
use crate::config::DEFAULT_MARKETING_BPS;
use crate::config::DEFAULT_TAX_BPS;
use crate::config::MAX_EXEMPT_ADDRS;
use crate::config::MAX_LP_ACCOUNTS;
use crate::error::NineLivesError;
use crate::keys::insert_key;
use crate::keys::remove_key;
use crate::laws::lemma_initial_config_wf;
use crate::laws::lemma_registry_change_is_confined;
use crate::ledger::key_bytes;
use crate::ledger::same_key;
use anchor_lang::prelude::Pubkey;
use vstd::prelude::*;

verus! {

/// What creating the record works on.
#[derive(Debug, PartialEq, Eq)]
pub struct Initialize {
    /// Who creates the record and becomes its authority.
    pub authority: Pubkey,
    /// Bump seed of the record's derived address.
    pub bump: u8,
    /// The place of the record: empty until it is created.
    pub config: Option<Config>,
}

/// What a change of a registry works on.
#[derive(Debug, PartialEq, Eq)]
pub struct UpdateConfig {
    /// Who asks for the change.
    pub authority: Pubkey,
    /// The record.
    pub config: Config,
}

/// Creates the record with `ctx.authority` as its authority, the default
/// rates, and the three wallets exempt. Refused where the record exists.
pub fn initialize(
    ctx: &mut Initialize,
    founder_wallet: Pubkey,
    marketing_wallet: Pubkey,
    ritual_vault_wallet: Pubkey,
) -> (done: Result<(), NineLivesError>)
    ensures
        final(ctx).authority == old(ctx).authority,
        final(ctx).bump == old(ctx).bump,
        done is Ok ==> final(ctx).config->0@.wf(),
        match done {
            Ok(()) => {
                &&& old(ctx).config is None
                &&& final(ctx).config is Some
                &&& final(ctx).config->0@ == initial_config(
                    old(ctx).bump,
                    key_bytes(old(ctx).authority),
                    key_bytes(founder_wallet),
                    key_bytes(marketing_wallet),
                    key_bytes(ritual_vault_wallet),
                )
            },
            Err(e) => {
                &&& old(ctx).config is Some
                &&& e == NineLivesError::AlreadyInitialized
                &&& final(ctx).config == old(ctx).config
            },
        },
{
    if ctx.config.is_some() {
        return Err(NineLivesError::AlreadyInitialized);
    }
    let mut exempt: Vec<Pubkey> = Vec::new();
    exempt.push(founder_wallet);
    if !same_key(&marketing_wallet, &founder_wallet) {
        exempt.push(marketing_wallet);
    }
    if !same_key(&ritual_vault_wallet, &founder_wallet) && !same_key(
        &ritual_vault_wallet,
        &marketing_wallet,
    ) {
        exempt.push(ritual_vault_wallet);
    }
    let cfg = Config {
        bump: ctx.bump,
        authority: ctx.authority,
        founder_wallet,
        marketing_wallet,
        ritual_vault_wallet,
        tax_bps: DEFAULT_TAX_BPS,
        founder_bps: DEFAULT_FOUNDER_BPS,
        marketing_bps: DEFAULT_MARKETING_BPS,
        exempt,
        lp_token_accounts: Vec::new(),
    };
    assert(cfg@.exempt =~= core_wallets(
        key_bytes(founder_wallet),
        key_bytes(marketing_wallet),
        key_bytes(ritual_vault_wallet),
    ));
    assert(cfg@.lp_token_accounts =~= Seq::<Seq<u8>>::empty());
    proof {
        lemma_initial_config_wf(
            ctx.bump,
            key_bytes(ctx.authority),
            key_bytes(founder_wallet),
            key_bytes(marketing_wallet),
            key_bytes(ritual_vault_wallet),
        );
    }
    ctx.config = Some(cfg);
    Ok(())
}

/// Adds `addr` to the exempt owners. Only the authority may; an owner that
/// is exempt already changes nothing; a new one is refused once 64 are
/// listed.
pub fn add_exempt(ctx: &mut UpdateConfig, addr: Pubkey) -> (done: Result<(), NineLivesError>)
    ensures
        final(ctx).authority == old(ctx).authority,
        old(ctx).config@.wf() ==> final(ctx).config@.wf(),
        match done {
            Ok(()) => old(ctx).config@.add_exempt(key_bytes(old(ctx).authority), key_bytes(addr))
                == Ok::<ConfigView, NineLivesError>(final(ctx).config@),
            Err(e) => old(ctx).config@.add_exempt(key_bytes(old(ctx).authority), key_bytes(addr))
                == Err::<ConfigView, NineLivesError>(e) && *final(ctx) == *old(ctx),
        },
{
    proof {
        lemma_registry_change_is_confined(
            ctx.config@,
            key_bytes(ctx.authority),
            key_bytes(addr),
        );
    }
    if !same_key(&ctx.authority, &ctx.config.authority) {
        return Err(NineLivesError::Unauthorized);
    }
    insert_key(&mut ctx.config.exempt, addr, MAX_EXEMPT_ADDRS as usize)
}

/// Takes `addr` off the exempt owners. Only the authority may; an owner
/// that is not listed changes nothing.
pub fn remove_exempt(ctx: &mut UpdateConfig, addr: Pubkey) -> (done: Result<(), NineLivesError>)
    ensures
        final(ctx).authority == old(ctx).authority,
        old(ctx).config@.wf() ==> final(ctx).config@.wf(),
        match done {
            Ok(()) => old(ctx).config@.remove_exempt(
                key_bytes(old(ctx).authority),
                key_bytes(addr),
            ) == Ok::<ConfigView, NineLivesError>(final(ctx).config@),
            Err(e) => old(ctx).config@.remove_exempt(
                key_bytes(old(ctx).authority),
                key_bytes(addr),
            ) == Err::<ConfigView, NineLivesError>(e) && *final(ctx) == *old(ctx),
        },
{
    proof {
        lemma_registry_change_is_confined(
            ctx.config@,
            key_bytes(ctx.authority),
            key_bytes(addr),
        );
    }
    if !same_key(&ctx.authority, &ctx.config.authority) {
        return Err(NineLivesError::Unauthorized);
    }
    remove_key(&mut ctx.config.exempt, &addr);
    Ok(())
}

/// Registers `lp_token_account` as a destination that makes a transfer a
/// sell. Only the authority may; an account that is registered already
/// changes nothing; a new one is refused once 16 are registered.
pub fn add_lp_account(ctx: &mut UpdateConfig, lp_token_account: Pubkey) -> (done: Result<
    (),
    NineLivesError,
>)
    ensures
        final(ctx).authority == old(ctx).authority,
        old(ctx).config@.wf() ==> final(ctx).config@.wf(),
        match done {
            Ok(()) => old(ctx).config@.add_lp_account(
                key_bytes(old(ctx).authority),
                key_bytes(lp_token_account),
            ) == Ok::<ConfigView, NineLivesError>(final(ctx).config@),
            Err(e) => old(ctx).config@.add_lp_account(
                key_bytes(old(ctx).authority),
                key_bytes(lp_token_account),
            ) == Err::<ConfigView, NineLivesError>(e) && *final(ctx) == *old(ctx),
        },
{
    proof {
        lemma_registry_change_is_confined(
            ctx.config@,
            key_bytes(ctx.authority),
            key_bytes(lp_token_account),
        );
    }
    if !same_key(&ctx.authority, &ctx.config.authority) {
        return Err(NineLivesError::Unauthorized);
    }
    insert_key(&mut ctx.config.lp_token_accounts, lp_token_account, MAX_LP_ACCOUNTS as usize)
}

/// Takes `lp_token_account` off the registered destinations. Only the
/// authority may; an account that is not registered changes nothing.
pub fn remove_lp_account(ctx: &mut UpdateConfig, lp_token_account: Pubkey) -> (done: Result<
    (),
    NineLivesError,
>)
    ensures
        final(ctx).authority == old(ctx).authority,
        old(ctx).config@.wf() ==> final(ctx).config@.wf(),
        match done {
            Ok(()) => old(ctx).config@.remove_lp_account(
                key_bytes(old(ctx).authority),
                key_bytes(lp_token_account),
            ) == Ok::<ConfigView, NineLivesError>(final(ctx).config@),
            Err(e) => old(ctx).config@.remove_lp_account(
                key_bytes(old(ctx).authority),
                key_bytes(lp_token_account),
            ) == Err::<ConfigView, NineLivesError>(e) && *final(ctx) == *old(ctx),
        },
{
    proof {
        lemma_registry_change_is_confined(
            ctx.config@,
            key_bytes(ctx.authority),
            key_bytes(lp_token_account),
        );
    }
    if !same_key(&ctx.authority, &ctx.config.authority) {
        return Err(NineLivesError::Unauthorized);
    }
    remove_key(&mut ctx.config.lp_token_accounts, &lp_token_account);
    Ok(())
}

} // verus!
