//! What holds of the policy as a whole, proved over the models that the
//! operations' contracts speak of.

use crate::account::token_account_fields;
use crate::config::initial_config;
use crate::config::ConfigView;
use crate::error::NineLivesError;
use crate::instruction::InstructionFields;
use crate::keys::insert_unique;
use crate::keys::lemma_insert_unique_keeps_shape;
use crate::keys::lemma_without_keeps_others;
use crate::keys::without;
use crate::transfer::TransferWithTaxView;
use vstd::prelude::*;

verus! {

/// A record is well-formed when it is created, it holds the default rates,
/// and the three wallets it was created with are exempt.
pub proof fn lemma_initial_config_wf(
    bump: u8,
    authority: Seq<u8>,
    founder: Seq<u8>,
    marketing: Seq<u8>,
    ritual_vault: Seq<u8>,
)
    ensures
        initial_config(bump, authority, founder, marketing, ritual_vault).wf(),
        initial_config(bump, authority, founder, marketing, ritual_vault).exempt.contains(founder),
        initial_config(bump, authority, founder, marketing, ritual_vault).exempt.contains(
            marketing,
        ),
        initial_config(bump, authority, founder, marketing, ritual_vault).exempt.contains(
            ritual_vault,
        ),
        initial_config(bump, authority, founder, marketing, ritual_vault).exempt.len() <= 3,
{
    let exempt = initial_config(bump, authority, founder, marketing, ritual_vault).exempt;
    assert(exempt[0] == founder);
    if marketing != founder {
        assert(exempt[1] == marketing);
        if ritual_vault != founder && ritual_vault != marketing {
            assert(exempt[2] == ritual_vault);
        }
    } else if ritual_vault != founder {
        assert(exempt[1] == ritual_vault);
    }
}

/// A change of a registry changes that registry alone. The authority, the
/// three wallets, the rates and the other registry are as before, and a
/// well-formed record stays well-formed.
pub proof fn lemma_registry_change_is_confined(config: ConfigView, caller: Seq<u8>, key: Seq<u8>)
    ensures
        config.add_exempt(caller, key) matches Ok(after) ==> after == (ConfigView {
            exempt: after.exempt,
            ..config
        }) && (config.wf() ==> after.wf()),
        config.remove_exempt(caller, key) matches Ok(after) ==> after == (ConfigView {
            exempt: after.exempt,
            ..config
        }) && (config.wf() ==> after.wf()),
        config.add_lp_account(caller, key) matches Ok(after) ==> after == (ConfigView {
            lp_token_accounts: after.lp_token_accounts,
            ..config
        }) && (config.wf() ==> after.wf()),
        config.remove_lp_account(caller, key) matches Ok(after) ==> after == (ConfigView {
            lp_token_accounts: after.lp_token_accounts,
            ..config
        }) && (config.wf() ==> after.wf()),
{
    lemma_without_keeps_others(config.exempt, key);
    lemma_without_keeps_others(config.lp_token_accounts, key);
    if insert_unique(config.exempt, key, 64) is Ok {
        lemma_insert_unique_keeps_shape(config.exempt, key, 64);
    }
    if insert_unique(config.lp_token_accounts, key, 16) is Ok {
        lemma_insert_unique_keeps_shape(config.lp_token_accounts, key, 16);
    }
}

/// Only the authority changes a registry: for any other caller each of the
/// four changes is refused as unauthorized, whatever the key.
pub proof fn lemma_registry_change_needs_authority(
    config: ConfigView,
    caller: Seq<u8>,
    key: Seq<u8>,
)
    requires
        caller != config.authority,
    ensures
        config.add_exempt(caller, key) == Err::<ConfigView, NineLivesError>(
            NineLivesError::Unauthorized,
        ),
        config.remove_exempt(caller, key) == Err::<ConfigView, NineLivesError>(
            NineLivesError::Unauthorized,
        ),
        config.add_lp_account(caller, key) == Err::<ConfigView, NineLivesError>(
            NineLivesError::Unauthorized,
        ),
        config.remove_lp_account(caller, key) == Err::<ConfigView, NineLivesError>(
            NineLivesError::Unauthorized,
        ),
{
}

/// Exempting an owner twice is exempting it once: where the first request
/// succeeds, the second succeeds too and leaves the record, and so the
/// length of the exempt list, as the first left it. The same holds of
/// registering a liquidity-pool token account.
pub proof fn lemma_adding_twice_adds_once(config: ConfigView, caller: Seq<u8>, key: Seq<u8>)
    ensures
        config.add_exempt(caller, key) matches Ok(once) ==> once.add_exempt(caller, key) == Ok::<
            ConfigView,
            NineLivesError,
        >(once) && once.exempt.contains(key),
        config.add_lp_account(caller, key) matches Ok(once) ==> once.add_lp_account(caller, key)
            == Ok::<ConfigView, NineLivesError>(once) && once.lp_token_accounts.contains(key),
{
    if insert_unique(config.exempt, key, 64) is Ok {
        lemma_insert_unique_keeps_shape(config.exempt, key, 64);
    }
    if insert_unique(config.lp_token_accounts, key, 16) is Ok {
        lemma_insert_unique_keeps_shape(config.lp_token_accounts, key, 16);
    }
}

/// Removing a key twice is removing it once, and after a removal the key is
/// no longer listed.
pub proof fn lemma_removing_twice_removes_once(config: ConfigView, caller: Seq<u8>, key: Seq<u8>)
    ensures
        config.remove_exempt(caller, key) matches Ok(once) ==> once.remove_exempt(caller, key)
            == Ok::<ConfigView, NineLivesError>(once) && !once.exempt.contains(key),
        config.remove_lp_account(caller, key) matches Ok(once) ==> once.remove_lp_account(
            caller,
            key,
        ) == Ok::<ConfigView, NineLivesError>(once) && !once.lp_token_accounts.contains(key),
{
    lemma_without_keeps_others(config.exempt, key);
    lemma_without_keeps_others(without(config.exempt, key), key);
    lemma_without_keeps_others(config.lp_token_accounts, key);
    lemma_without_keeps_others(without(config.lp_token_accounts, key), key);
}

/// The founder, marketing and ritual vault wallets are exempt in every
/// record, and no removal ends that: after any key, one of the three
/// included, has been taken off the exempt list, all three are exempt
/// still. Any other owner is exempt after a removal exactly if it was
/// before and is not the one removed.
pub proof fn lemma_core_wallets_always_exempt(config: ConfigView, caller: Seq<u8>, key: Seq<u8>)
    ensures
        config.is_exempt(config.founder_wallet),
        config.is_exempt(config.marketing_wallet),
        config.is_exempt(config.ritual_vault_wallet),
        config.remove_exempt(caller, key) matches Ok(after) ==> {
            &&& after.is_exempt(config.founder_wallet)
            &&& after.is_exempt(config.marketing_wallet)
            &&& after.is_exempt(config.ritual_vault_wallet)
            &&& forall|owner: Seq<u8>|
                owner != config.founder_wallet && owner != config.marketing_wallet && owner
                    != config.ritual_vault_wallet ==> (#[trigger] after.is_exempt(owner)
                    <==> config.is_exempt(owner) && owner != key)
        },
{
    lemma_without_keeps_others(config.exempt, key);
}

/// The exempt list has room for 64 owners and the registered destinations
/// for 16. The authority's request to add a key that is not listed is
/// refused for want of room exactly when the list is full; else it
/// succeeds and the list is longer by that key.
pub proof fn lemma_capacity_is_a_ceiling(config: ConfigView, key: Seq<u8>)
    ensures
        !config.exempt.contains(key) && config.exempt.len() >= 64 ==> config.add_exempt(
            config.authority,
            key,
        ) == Err::<ConfigView, NineLivesError>(NineLivesError::CapacityExceeded),
        !config.exempt.contains(key) && config.exempt.len() < 64 ==> config.add_exempt(
            config.authority,
            key,
        ) == Ok::<ConfigView, NineLivesError>(
            ConfigView { exempt: config.exempt.push(key), ..config },
        ),
        !config.lp_token_accounts.contains(key) && config.lp_token_accounts.len() >= 16
            ==> config.add_lp_account(config.authority, key) == Err::<ConfigView, NineLivesError>(
            NineLivesError::CapacityExceeded,
        ),
        !config.lp_token_accounts.contains(key) && config.lp_token_accounts.len() < 16
            ==> config.add_lp_account(config.authority, key) == Ok::<ConfigView, NineLivesError>(
            ConfigView { lp_token_accounts: config.lp_token_accounts.push(key), ..config },
        ),
{
}

/// Fees reach the configured owners only. A transfer whose founder fee
/// account or marketing fee account is owned by anyone else never
/// succeeds, whoever signs and whatever the other accounts are. Where the
/// amount is not zero and the four token accounts can be read and belong to
/// the mint, the error is `Unauthorized`.
pub proof fn lemma_foreign_fee_account_is_refused(ctx: TransferWithTaxView, amount: u64)
    requires
        ({
            ||| token_account_fields(ctx.founder_token.data) matches Ok(founder) && founder.owner
                != ctx.config.founder_wallet
            ||| token_account_fields(ctx.marketing_token.data) matches Ok(marketing)
                && marketing.owner != ctx.config.marketing_wallet
        }),
    ensures
        ctx.outcome(amount) is Err,
        ({
            &&& amount > 0
            &&& token_account_fields(ctx.from.data) matches Ok(from)
            &&& token_account_fields(ctx.to.data) matches Ok(to)
            &&& token_account_fields(ctx.founder_token.data) matches Ok(founder)
            &&& token_account_fields(ctx.marketing_token.data) matches Ok(marketing)
            &&& from.mint == ctx.mint
            &&& to.mint == ctx.mint
            &&& founder.mint == ctx.mint
            &&& marketing.mint == ctx.mint
        }) ==> ctx.outcome(amount) == Err::<
            Seq<InstructionFields>,
            NineLivesError,
        >(NineLivesError::Unauthorized),
{
}

/// A transfer that is not a taxed sell goes through whole: where the checks
/// pass and the destination is not registered, or the owner of either side
/// is exempt, the outcome is the one transfer of the full amount from the
/// source to the destination.
pub proof fn lemma_untaxed_transfer_is_one_leg(ctx: TransferWithTaxView, amount: u64)
    requires
        ctx.refusal(amount) is None,
        !ctx.is_sell() || ctx.either_exempt(),
    ensures
        ctx.outcome(amount) == Ok::<Seq<InstructionFields>, NineLivesError>(
            seq![ctx.leg(ctx.to.key, amount)],
        ),
{
}

} // verus!
