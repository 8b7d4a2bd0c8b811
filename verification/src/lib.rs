//! Sell-tax policy for a fungible token: a configuration registry, the
//! fee-split arithmetic, and the checks that decide which ledger
//! instructions a transfer, a burn or a mint lock turns into.
//!
//! The library decides and builds instructions; whoever embeds it reads the
//! accounts, hands their keys and raw data in, and invokes what comes back.

pub mod account;
pub mod config;
pub mod error;
pub mod fees;
pub mod instruction;
pub mod keys;
pub mod laws;
pub mod ledger;
pub mod registry;
pub mod supply;
pub mod transfer;

pub use crate::account::load_token_account_min;
pub use crate::account::AccountRecord;
pub use crate::account::MinTokenAccount;
pub use crate::config::Config;
pub use crate::config::DEFAULT_FOUNDER_BPS;
pub use crate::config::DEFAULT_MARKETING_BPS;
pub use crate::config::DEFAULT_TAX_BPS;
pub use crate::config::MAX_EXEMPT_ADDRS;
pub use crate::config::MAX_LP_ACCOUNTS;
pub use crate::config::TOKEN_DECIMALS;
pub use crate::config::TOKEN_NAME;
pub use crate::config::TOKEN_SYMBOL;
pub use crate::config::TOTAL_SUPPLY;
pub use crate::error::NineLivesError;
pub use crate::fees::mul_bps;
pub use crate::fees::split_tax;
pub use crate::fees::TaxSplit;
pub use crate::instruction::ix_burn;
pub use crate::instruction::ix_set_mint_authority_none;
pub use crate::instruction::ix_transfer;
pub use crate::registry::add_exempt;
pub use crate::registry::add_lp_account;
pub use crate::registry::initialize;
pub use crate::registry::remove_exempt;
pub use crate::registry::remove_lp_account;
pub use crate::registry::Initialize;
pub use crate::registry::UpdateConfig;
pub use crate::supply::burn;
pub use crate::supply::lock_mint_authority;
pub use crate::supply::BurnCtx;
pub use crate::supply::LockMintAuthority;
pub use crate::transfer::transfer_with_tax;
pub use crate::transfer::TransferWithTax;
