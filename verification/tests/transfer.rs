use anchor_lang::prelude::{AccountMeta, Pubkey};
use anchor_lang::solana_program::instruction::Instruction;
use nine_lives::{
    add_exempt, add_lp_account, initialize, remove_exempt, transfer_with_tax, AccountRecord,
    Config, Initialize, NineLivesError, TransferWithTax, UpdateConfig,
};

const AUTHORITY: u8 = 1;
const FOUNDER: u8 = 2;
const MARKETING: u8 = 3;
const RITUAL_VAULT: u8 = 4;
const MINT: u8 = 9;
const SENDER: u8 = 10;
const SENDER_ACCOUNT: u8 = 11;
const FOUNDER_ACCOUNT: u8 = 12;
const MARKETING_ACCOUNT: u8 = 13;
const POOL_ACCOUNT: u8 = 20;
const POOL_OWNER: u8 = 21;
const FRIEND_ACCOUNT: u8 = 22;
const FRIEND: u8 = 23;
const TOKEN_PROGRAM: u8 = 30;

fn tx_key(tag: u8) -> Pubkey {
    Pubkey::new_from_array([tag; 32])
}

fn token_account(key: u8, mint: u8, owner: u8) -> AccountRecord {
    let mut data = vec![mint; 32];
    data.extend_from_slice(&[owner; 32]);
    data.extend_from_slice(&[0u8; 101]);
    AccountRecord { key: tx_key(key), data }
}

fn policy() -> Config {
    let mut ctx = Initialize { authority: tx_key(AUTHORITY), bump: 255, config: None };
    initialize(&mut ctx, tx_key(FOUNDER), tx_key(MARKETING), tx_key(RITUAL_VAULT)).unwrap();
    let mut ctx = UpdateConfig { authority: tx_key(AUTHORITY), config: ctx.config.unwrap() };
    add_lp_account(&mut ctx, tx_key(POOL_ACCOUNT)).unwrap();
    ctx.config
}

/// A sell by a sender that is not exempt into the registered pool.
fn sell() -> TransferWithTax {
    TransferWithTax {
        from_authority: tx_key(SENDER),
        config: policy(),
        from: token_account(SENDER_ACCOUNT, MINT, SENDER),
        to: token_account(POOL_ACCOUNT, MINT, POOL_OWNER),
        founder_token: token_account(FOUNDER_ACCOUNT, MINT, FOUNDER),
        marketing_token: token_account(MARKETING_ACCOUNT, MINT, MARKETING),
        mint: tx_key(MINT),
        token_program: tx_key(TOKEN_PROGRAM),
    }
}

fn expected_leg(to: u8, amount: u64) -> Instruction {
    let mut data = vec![3u8];
    data.extend_from_slice(&amount.to_le_bytes());
    Instruction {
        program_id: tx_key(TOKEN_PROGRAM),
        accounts: vec![
            AccountMeta { pubkey: tx_key(SENDER_ACCOUNT), is_signer: false, is_writable: true },
            AccountMeta { pubkey: tx_key(to), is_signer: false, is_writable: true },
            AccountMeta { pubkey: tx_key(SENDER), is_signer: true, is_writable: false },
        ],
        data,
    }
}

#[test]
fn taxed_sell_of_ten_million_is_three_legs_in_order() {
    let legs = transfer_with_tax(&sell(), 10_000_000).unwrap();
    assert_eq!(
        legs,
        vec![
            expected_leg(POOL_ACCOUNT, 9_700_000),
            expected_leg(FOUNDER_ACCOUNT, 200_000),
            expected_leg(MARKETING_ACCOUNT, 100_000),
        ]
    );
    assert_eq!(legs[0].data, vec![3, 0xA0, 0x02, 0x94, 0, 0, 0, 0, 0]);
    assert_eq!(legs[1].data, vec![3, 0x40, 0x0D, 0x03, 0, 0, 0, 0, 0]);
    assert_eq!(legs[2].data, vec![3, 0xA0, 0x86, 0x01, 0, 0, 0, 0, 0]);
}

#[test]
fn transfer_to_an_unregistered_destination_is_one_leg_of_the_full_amount() {
    let mut ctx = sell();
    ctx.to = token_account(FRIEND_ACCOUNT, MINT, FRIEND);
    let legs = transfer_with_tax(&ctx, 10_000_000).unwrap();
    assert_eq!(legs, vec![expected_leg(FRIEND_ACCOUNT, 10_000_000)]);
}

#[test]
fn destination_is_registered_by_account_not_by_owner() {
    // The pool's owner key is not a registered destination.
    let mut ctx = sell();
    ctx.to = token_account(POOL_OWNER, MINT, POOL_ACCOUNT);
    let legs = transfer_with_tax(&ctx, 10_000_000).unwrap();
    assert_eq!(legs, vec![expected_leg(POOL_OWNER, 10_000_000)]);
}

#[test]
fn taxed_sell_of_one_unit_floors_the_tax_to_zero() {
    let legs = transfer_with_tax(&sell(), 1).unwrap();
    assert_eq!(
        legs,
        vec![
            expected_leg(POOL_ACCOUNT, 1),
            expected_leg(FOUNDER_ACCOUNT, 0),
            expected_leg(MARKETING_ACCOUNT, 0),
        ]
    );
}

#[test]
fn taxed_sell_of_ninety_nine_is_a_split_mismatch() {
    assert_eq!(transfer_with_tax(&sell(), 99), Err(NineLivesError::TaxSplitMismatch));
}

#[test]
fn untaxed_transfer_of_ninety_nine_goes_through() {
    let mut ctx = sell();
    ctx.to = token_account(FRIEND_ACCOUNT, MINT, FRIEND);
    assert_eq!(transfer_with_tax(&ctx, 99), Ok(vec![expected_leg(FRIEND_ACCOUNT, 99)]));
}

#[test]
fn sell_by_an_exempt_sender_is_untaxed() {
    let mut ctx = sell();
    let mut update = UpdateConfig { authority: tx_key(AUTHORITY), config: ctx.config };
    add_exempt(&mut update, tx_key(SENDER)).unwrap();
    ctx.config = update.config;
    let legs = transfer_with_tax(&ctx, 10_000_000).unwrap();
    assert_eq!(legs, vec![expected_leg(POOL_ACCOUNT, 10_000_000)]);
}

#[test]
fn sell_into_a_pool_with_an_exempt_owner_is_untaxed() {
    let mut ctx = sell();
    let mut update = UpdateConfig { authority: tx_key(AUTHORITY), config: ctx.config };
    add_exempt(&mut update, tx_key(POOL_OWNER)).unwrap();
    ctx.config = update.config;
    let legs = transfer_with_tax(&ctx, 10_000_000).unwrap();
    assert_eq!(legs, vec![expected_leg(POOL_ACCOUNT, 10_000_000)]);
}

#[test]
fn sell_by_the_founder_is_untaxed_even_when_delisted() {
    let mut ctx = sell();
    let mut update = UpdateConfig { authority: tx_key(AUTHORITY), config: ctx.config };
    remove_exempt(&mut update, tx_key(FOUNDER)).unwrap();
    ctx.config = update.config;
    ctx.from_authority = tx_key(FOUNDER);
    ctx.from = token_account(FOUNDER_ACCOUNT, MINT, FOUNDER);
    let legs = transfer_with_tax(&ctx, 10_000_000).unwrap();
    let mut data = vec![3u8];
    data.extend_from_slice(&10_000_000u64.to_le_bytes());
    assert_eq!(
        legs,
        vec![Instruction {
            program_id: tx_key(TOKEN_PROGRAM),
            accounts: vec![
                AccountMeta { pubkey: tx_key(FOUNDER_ACCOUNT), is_signer: false, is_writable: true },
                AccountMeta { pubkey: tx_key(POOL_ACCOUNT), is_signer: false, is_writable: true },
                AccountMeta { pubkey: tx_key(FOUNDER), is_signer: true, is_writable: false },
            ],
            data,
        }]
    );
}

#[test]
fn zero_amount_is_invalid() {
    assert_eq!(transfer_with_tax(&sell(), 0), Err(NineLivesError::InvalidAmount));
}

#[test]
fn zero_amount_comes_before_anything_else() {
    let mut ctx = sell();
    ctx.from.data.truncate(10);
    ctx.to = token_account(POOL_ACCOUNT, MINT + 1, POOL_OWNER);
    ctx.founder_token = token_account(FOUNDER_ACCOUNT, MINT, SENDER);
    assert_eq!(transfer_with_tax(&ctx, 0), Err(NineLivesError::InvalidAmount));
}

#[test]
fn short_account_record_is_invalid() {
    let mut ctx = sell();
    ctx.from.data.truncate(63);
    assert_eq!(transfer_with_tax(&ctx, 10_000_000), Err(NineLivesError::InvalidAccount));
    let mut ctx = sell();
    ctx.to.data.truncate(63);
    assert_eq!(transfer_with_tax(&ctx, 10_000_000), Err(NineLivesError::InvalidAccount));
    let mut ctx = sell();
    ctx.founder_token.data.truncate(0);
    assert_eq!(transfer_with_tax(&ctx, 10_000_000), Err(NineLivesError::InvalidAccount));
    let mut ctx = sell();
    ctx.marketing_token.data.truncate(32);
    assert_eq!(transfer_with_tax(&ctx, 10_000_000), Err(NineLivesError::InvalidAccount));
}

#[test]
fn short_account_record_comes_before_a_wrong_mint() {
    let mut ctx = sell();
    ctx.from = token_account(SENDER_ACCOUNT, MINT + 1, SENDER);
    ctx.marketing_token.data.truncate(63);
    assert_eq!(transfer_with_tax(&ctx, 10_000_000), Err(NineLivesError::InvalidAccount));
}

#[test]
fn account_of_another_mint_is_invalid() {
    let mut ctx = sell();
    ctx.from = token_account(SENDER_ACCOUNT, MINT + 1, SENDER);
    assert_eq!(transfer_with_tax(&ctx, 10_000_000), Err(NineLivesError::InvalidMint));
    let mut ctx = sell();
    ctx.to = token_account(POOL_ACCOUNT, MINT + 1, POOL_OWNER);
    assert_eq!(transfer_with_tax(&ctx, 10_000_000), Err(NineLivesError::InvalidMint));
    let mut ctx = sell();
    ctx.founder_token = token_account(FOUNDER_ACCOUNT, MINT + 1, FOUNDER);
    assert_eq!(transfer_with_tax(&ctx, 10_000_000), Err(NineLivesError::InvalidMint));
    let mut ctx = sell();
    ctx.marketing_token = token_account(MARKETING_ACCOUNT, MINT + 1, MARKETING);
    assert_eq!(transfer_with_tax(&ctx, 10_000_000), Err(NineLivesError::InvalidMint));
    let mut ctx = sell();
    ctx.mint = tx_key(MINT + 1);
    assert_eq!(transfer_with_tax(&ctx, 10_000_000), Err(NineLivesError::InvalidMint));
}

#[test]
fn wrong_mint_comes_before_a_wrong_owner() {
    let mut ctx = sell();
    ctx.from_authority = tx_key(FRIEND);
    ctx.marketing_token = token_account(MARKETING_ACCOUNT, MINT + 1, MARKETING);
    assert_eq!(transfer_with_tax(&ctx, 10_000_000), Err(NineLivesError::InvalidMint));
}

#[test]
fn signer_must_own_the_source() {
    let mut ctx = sell();
    ctx.from_authority = tx_key(FRIEND);
    assert_eq!(transfer_with_tax(&ctx, 10_000_000), Err(NineLivesError::Unauthorized));
    let mut ctx = sell();
    ctx.from = token_account(SENDER_ACCOUNT, MINT, FRIEND);
    assert_eq!(transfer_with_tax(&ctx, 10_000_000), Err(NineLivesError::Unauthorized));
}

#[test]
fn founder_fee_account_of_another_owner_is_unauthorized() {
    let mut ctx = sell();
    ctx.founder_token = token_account(FOUNDER_ACCOUNT, MINT, SENDER);
    assert_eq!(transfer_with_tax(&ctx, 10_000_000), Err(NineLivesError::Unauthorized));
    // Whether the rest is in order or not, and taxed or not.
    let mut ctx = sell();
    ctx.founder_token = token_account(FOUNDER_ACCOUNT, MINT, MARKETING);
    ctx.from_authority = tx_key(FRIEND);
    assert_eq!(transfer_with_tax(&ctx, 10_000_000), Err(NineLivesError::Unauthorized));
    let mut ctx = sell();
    ctx.founder_token = token_account(FOUNDER_ACCOUNT, MINT, SENDER);
    ctx.to = token_account(FRIEND_ACCOUNT, MINT, FRIEND);
    assert_eq!(transfer_with_tax(&ctx, 10_000_000), Err(NineLivesError::Unauthorized));
}

#[test]
fn marketing_fee_account_of_another_owner_is_unauthorized() {
    let mut ctx = sell();
    ctx.marketing_token = token_account(MARKETING_ACCOUNT, MINT, FOUNDER);
    assert_eq!(transfer_with_tax(&ctx, 10_000_000), Err(NineLivesError::Unauthorized));
    let mut ctx = sell();
    ctx.marketing_token = token_account(MARKETING_ACCOUNT, MINT, SENDER);
    ctx.to = token_account(FRIEND_ACCOUNT, MINT, FRIEND);
    assert_eq!(transfer_with_tax(&ctx, 10_000_000), Err(NineLivesError::Unauthorized));
}

#[test]
fn taxed_sell_overflows_on_a_huge_amount() {
    assert_eq!(transfer_with_tax(&sell(), u64::MAX), Err(NineLivesError::MathOverflow));
    assert_eq!(
        transfer_with_tax(&sell(), u64::MAX / 300 + 1),
        Err(NineLivesError::MathOverflow)
    );
}

#[test]
fn untaxed_transfer_of_a_huge_amount_goes_through() {
    let mut ctx = sell();
    ctx.to = token_account(FRIEND_ACCOUNT, MINT, FRIEND);
    assert_eq!(
        transfer_with_tax(&ctx, u64::MAX),
        Ok(vec![expected_leg(FRIEND_ACCOUNT, u64::MAX)])
    );
}

#[test]
fn taxed_sell_is_refused_where_the_tax_takes_it_all() {
    let mut ctx = sell();
    ctx.config.tax_bps = 10_000;
    ctx.config.founder_bps = 6_000;
    ctx.config.marketing_bps = 4_000;
    assert_eq!(transfer_with_tax(&ctx, 100), Err(NineLivesError::InsufficientNetAmount));
}

#[test]
fn taxed_sell_with_drifted_rates_is_a_split_mismatch() {
    let mut ctx = sell();
    ctx.config.founder_bps = 150;
    assert_eq!(transfer_with_tax(&ctx, 10_000_000), Err(NineLivesError::TaxSplitMismatch));
}

#[test]
fn transfer_leaves_its_input_untouched_and_repeats() {
    let ctx = sell();
    let first = transfer_with_tax(&ctx, 10_000_000);
    let second = transfer_with_tax(&ctx, 10_000_000);
    assert_eq!(first, second);
    assert_eq!(ctx, sell());
}
