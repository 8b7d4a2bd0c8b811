//! The configuration record: who may change policy, where fees go, the tax
//! rates, and the two registries.

use crate::error::NineLivesError;
use crate::keys::contains_key;
use crate::keys::copy_keys;
use crate::keys::insert_unique;
use crate::keys::keys_view;
use crate::keys::without;
use crate::ledger::key_bytes;
use crate::ledger::same_key;
use anchor_lang::prelude::Pubkey;
use vstd::prelude::*;

verus! {

/// Display name of the token.
pub const TOKEN_NAME: &'static str = "9LIVES";

/// Ticker symbol of the token.
pub const TOKEN_SYMBOL: &'static str = "9LIVES";

/// Decimal places of one token.
pub const TOKEN_DECIMALS: u8 = 9;

/// Total supply in raw units.
pub const TOTAL_SUPPLY: u64 = 999_000_000_000;

/// Tax on a sell, in basis points.
pub const DEFAULT_TAX_BPS: u16 = 300;

/// The founder's part of the tax, in basis points.
pub const DEFAULT_FOUNDER_BPS: u16 = 200;

/// The marketing part of the tax, in basis points.
pub const DEFAULT_MARKETING_BPS: u16 = 100;

/// How many exempt owners the record has room for.
pub const MAX_EXEMPT_ADDRS: u32 = 64;

/// How many liquidity-pool token accounts the record has room for.
pub const MAX_LP_ACCOUNTS: u32 = 16;

/// The one configuration record of a deployment.
///
/// Rates, routing wallets and the authority are set when the record is
/// created and no operation changes them afterwards.
#[derive(Debug, PartialEq, Eq)]
pub struct Config {
    /// Bump seed of the record's derived address.
    pub bump: u8,
    /// The only principal that may change the registries.
    pub authority: Pubkey,
    /// Owner of the account that receives the founder's fee.
    pub founder_wallet: Pubkey,
    /// Owner of the account that receives the marketing fee.
    pub marketing_wallet: Pubkey,
    /// The only principal that may burn.
    pub ritual_vault_wallet: Pubkey,
    /// Total tax on a sell, in basis points.
    pub tax_bps: u16,
    /// The founder's part of the tax, in basis points.
    pub founder_bps: u16,
    /// The marketing part of the tax, in basis points.
    pub marketing_bps: u16,
    /// Owners whose transfers are never taxed.
    pub exempt: Vec<Pubkey>,
    /// Token accounts that make a transfer into them a sell.
    pub lp_token_accounts: Vec<Pubkey>,
}

/// A [`Config`] with each key as its bytes and each registry as a sequence.
pub struct ConfigView {
    pub bump: u8,
    pub authority: Seq<u8>,
    pub founder_wallet: Seq<u8>,
    pub marketing_wallet: Seq<u8>,
    pub ritual_vault_wallet: Seq<u8>,
    pub tax_bps: u16,
    pub founder_bps: u16,
    pub marketing_bps: u16,
    pub exempt: Seq<Seq<u8>>,
    pub lp_token_accounts: Seq<Seq<u8>>,
}

impl View for Config {
    type V = ConfigView;

    open spec fn view(&self) -> ConfigView {
        ConfigView {
            bump: self.bump,
            authority: key_bytes(self.authority),
            founder_wallet: key_bytes(self.founder_wallet),
            marketing_wallet: key_bytes(self.marketing_wallet),
            ritual_vault_wallet: key_bytes(self.ritual_vault_wallet),
            tax_bps: self.tax_bps,
            founder_bps: self.founder_bps,
            marketing_bps: self.marketing_bps,
            exempt: keys_view(self.exempt@),
            lp_token_accounts: keys_view(self.lp_token_accounts@),
        }
    }
}

/// The three wallets in the order founder, marketing, ritual vault, each
/// once: one that repeats an earlier one is left out.
pub open spec fn core_wallets(founder: Seq<u8>, marketing: Seq<u8>, ritual_vault: Seq<u8>) -> Seq<
    Seq<u8>,
> {
    seq![founder] + (if marketing != founder {
        seq![marketing]
    } else {
        Seq::empty()
    }) + (if ritual_vault != founder && ritual_vault != marketing {
        seq![ritual_vault]
    } else {
        Seq::empty()
    })
}

/// The record as it is created: the default rates, the three wallets
/// exempt, and no liquidity-pool account registered.
pub open spec fn initial_config(
    bump: u8,
    authority: Seq<u8>,
    founder: Seq<u8>,
    marketing: Seq<u8>,
    ritual_vault: Seq<u8>,
) -> ConfigView {
    ConfigView {
        bump,
        authority,
        founder_wallet: founder,
        marketing_wallet: marketing,
        ritual_vault_wallet: ritual_vault,
        tax_bps: DEFAULT_TAX_BPS,
        founder_bps: DEFAULT_FOUNDER_BPS,
        marketing_bps: DEFAULT_MARKETING_BPS,
        exempt: core_wallets(founder, marketing, ritual_vault),
        lp_token_accounts: Seq::empty(),
    }
}

impl ConfigView {
    /// Well-formedness: neither registry repeats an entry or exceeds its
    /// capacity, and the two fee rates add up to the tax rate.
    pub open spec fn wf(self) -> bool {
        &&& self.exempt.no_duplicates()
        &&& self.exempt.len() <= MAX_EXEMPT_ADDRS
        &&& self.lp_token_accounts.no_duplicates()
        &&& self.lp_token_accounts.len() <= MAX_LP_ACCOUNTS
        &&& self.founder_bps + self.marketing_bps == self.tax_bps
    }

    /// Whether transfers of `owner` go untaxed: the three routing wallets
    /// always, whatever the exempt list holds, and every owner on the list.
    pub open spec fn is_exempt(self, owner: Seq<u8>) -> bool {
        ||| owner == self.founder_wallet
        ||| owner == self.marketing_wallet
        ||| owner == self.ritual_vault_wallet
        ||| self.exempt.contains(owner)
    }

    /// Whether a transfer into `account` is a sell.
    pub open spec fn is_lp_account(self, account: Seq<u8>) -> bool {
        self.lp_token_accounts.contains(account)
    }

    /// The record after `caller` asks to exempt `addr`.
    pub open spec fn add_exempt(self, caller: Seq<u8>, addr: Seq<u8>) -> Result<
        ConfigView,
        NineLivesError,
    > {
        if caller != self.authority {
            Err(NineLivesError::Unauthorized)
        } else {
            match insert_unique(self.exempt, addr, MAX_EXEMPT_ADDRS as nat) {
                Ok(exempt) => Ok(ConfigView { exempt, ..self }),
                Err(e) => Err(e),
            }
        }
    }

    /// The record after `caller` asks to end the exemption of `addr`.
    pub open spec fn remove_exempt(self, caller: Seq<u8>, addr: Seq<u8>) -> Result<
        ConfigView,
        NineLivesError,
    > {
        if caller != self.authority {
            Err(NineLivesError::Unauthorized)
        } else {
            Ok(ConfigView { exempt: without(self.exempt, addr), ..self })
        }
    }

    /// The record after `caller` asks to register `account` as a
    /// liquidity-pool token account.
    pub open spec fn add_lp_account(self, caller: Seq<u8>, account: Seq<u8>) -> Result<
        ConfigView,
        NineLivesError,
    > {
        if caller != self.authority {
            Err(NineLivesError::Unauthorized)
        } else {
            match insert_unique(self.lp_token_accounts, account, MAX_LP_ACCOUNTS as nat) {
                Ok(lp_token_accounts) => Ok(ConfigView { lp_token_accounts, ..self }),
                Err(e) => Err(e),
            }
        }
    }

    /// The record after `caller` asks to take `account` off the
    /// liquidity-pool token accounts.
    pub open spec fn remove_lp_account(self, caller: Seq<u8>, account: Seq<u8>) -> Result<
        ConfigView,
        NineLivesError,
    > {
        if caller != self.authority {
            Err(NineLivesError::Unauthorized)
        } else {
            Ok(ConfigView { lp_token_accounts: without(self.lp_token_accounts, account), ..self })
        }
    }
}

impl Clone for Config {
    /// A second record with the same content.
    fn clone(&self) -> (copy: Config)
        ensures
            copy@ == self@,
    {
        Config {
            bump: self.bump,
            authority: self.authority,
            founder_wallet: self.founder_wallet,
            marketing_wallet: self.marketing_wallet,
            ritual_vault_wallet: self.ritual_vault_wallet,
            tax_bps: self.tax_bps,
            founder_bps: self.founder_bps,
            marketing_bps: self.marketing_bps,
            exempt: copy_keys(&self.exempt),
            lp_token_accounts: copy_keys(&self.lp_token_accounts),
        }
    }
}

impl Config {
    /// Bytes of the stored record without the entries of its two lists:
    /// the bump, four keys, three rates, and the two length prefixes.
    pub const BASE_SIZE: usize = 1 + 32 + 32 + 32 + 32 + 2 + 2 + 2 + 4 + 4;

    /// Bytes that the entries of the two lists take at the given
    /// capacities, 32 for each key.
    pub fn vec_space(exempt_cap: u32, lp_cap: u32) -> (space: usize)
        requires
            exempt_cap * 32 + lp_cap * 32 <= usize::MAX,
        ensures
            space == exempt_cap * 32 + lp_cap * 32,
    {
        (exempt_cap as usize * 32) + (lp_cap as usize * 32)
    }

    /// Whether transfers of `owner` go untaxed.
    pub fn is_exempt(&self, owner: &Pubkey) -> (exempt: bool)
        ensures
            exempt == self@.is_exempt(key_bytes(*owner)),
    {
        same_key(owner, &self.founder_wallet) || same_key(owner, &self.marketing_wallet)
            || same_key(owner, &self.ritual_vault_wallet) || contains_key(&self.exempt, owner)
    }

    /// Whether a transfer into `account` is a sell.
    pub fn is_lp_account(&self, account: &Pubkey) -> (sell: bool)
        ensures
            sell == self@.is_lp_account(key_bytes(*account)),
    {
        contains_key(&self.lp_token_accounts, account)
    }
}

} // verus!
