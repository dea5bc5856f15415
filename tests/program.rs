use rx::{
    create_tier, grant_scholarship, init_creator, refill_scholarships, subscribe_or_renew,
    CreateTier, Creator, GrantScholarship, InitCreator, Pass, Payment, Pubkey, RefillScholarships,
    RxError, SubscribeOrRenew, Tier,
};

fn key(b: u8) -> Pubkey {
    Pubkey::new_from_array([b; 32])
}

fn owner() -> Pubkey {
    key(1)
}
fn payout_wallet() -> Pubkey {
    key(2)
}
fn creator_key() -> Pubkey {
    key(3)
}
fn tier_key() -> Pubkey {
    key(4)
}
fn payer() -> Pubkey {
    key(5)
}

fn creator() -> Creator {
    Creator { owner: owner(), payout_wallet: payout_wallet() }
}

fn tier(price: u64, mint: Pubkey, duration: u64, slots: u32) -> Tier {
    Tier {
        creator: creator_key(),
        index: 0,
        price_lamports: price,
        token_mint: mint,
        duration_sec: duration,
        name: String::from("gold"),
        uri: String::from("https://example.org/gold"),
        scholarship_remaining: slots,
    }
}

fn subscribe_ctx(t: Tier, pass: Pass) -> SubscribeOrRenew {
    SubscribeOrRenew {
        creator_key: creator_key(),
        creator: creator(),
        tier_key: tier_key(),
        tier: t,
        payout: payout_wallet(),
        pass,
        payer: payer(),
    }
}

fn grant_ctx(t: Tier, pass: Pass) -> GrantScholarship {
    GrantScholarship {
        creator_key: creator_key(),
        creator: creator(),
        tier_key: tier_key(),
        tier: t,
        pass,
        beneficiary: key(9),
        owner: owner(),
    }
}

fn refill_ctx(slots: u32) -> RefillScholarships {
    RefillScholarships {
        creator_key: creator_key(),
        creator: creator(),
        tier_key: tier_key(),
        tier: tier(0, Pubkey::zeroed(), 100, slots),
        owner: owner(),
    }
}

fn pass_with_expiry(e: u64) -> Pass {
    Pass { creator: creator_key(), tier: tier_key(), wallet: payer(), expiry_ts: e }
}

fn tier_ctx_after_init() -> CreateTier {
    let mut init = InitCreator { creator_key: creator_key(), creator: None, owner: owner() };
    assert_eq!(init_creator(&mut init, payout_wallet()), Ok(()));
    CreateTier {
        creator_key: init.creator_key,
        creator: init.creator.unwrap(),
        tier_key: tier_key(),
        tier: None,
        owner: init.owner,
    }
}

fn make_tier(ctx: &mut CreateTier, name: String, uri: String) -> Result<(), RxError> {
    create_tier(ctx, 7, 1000, Pubkey::zeroed(), 86400, name, uri, 3)
}

#[test]
fn init_creator_records_owner_and_wallet() {
    let mut init = InitCreator { creator_key: creator_key(), creator: None, owner: owner() };
    assert_eq!(init_creator(&mut init, payout_wallet()), Ok(()));
    let c = init.creator.unwrap();
    assert_eq!(c.owner, owner());
    assert_eq!(c.payout_wallet, payout_wallet());
}

#[test]
fn init_creator_twice_fails() {
    let mut init = InitCreator { creator_key: creator_key(), creator: None, owner: owner() };
    assert_eq!(init_creator(&mut init, payout_wallet()), Ok(()));
    assert_eq!(init_creator(&mut init, key(8)), Err(RxError::AccountAlreadyInUse));
    assert_eq!(init.creator.unwrap().payout_wallet, payout_wallet());
}

#[test]
fn create_tier_at_the_bounds_succeeds() {
    let mut ctx = tier_ctx_after_init();
    assert_eq!(make_tier(&mut ctx, "n".repeat(64), "u".repeat(200)), Ok(()));
    let t = ctx.tier.unwrap();
    assert_eq!(t.creator, creator_key());
    assert_eq!(t.index, 7);
    assert_eq!(t.price_lamports, 1000);
    assert!(t.token_mint.is_default());
    assert_eq!(t.duration_sec, 86400);
    assert_eq!(t.name.len(), 64);
    assert_eq!(t.uri.len(), 200);
    assert_eq!(t.scholarship_remaining, 3);
}

#[test]
fn create_tier_name_too_long() {
    let mut ctx = tier_ctx_after_init();
    assert_eq!(make_tier(&mut ctx, "n".repeat(65), "u".repeat(200)), Err(RxError::NameTooLong));
    assert!(ctx.tier.is_none());
}

#[test]
fn create_tier_uri_too_long() {
    let mut ctx = tier_ctx_after_init();
    assert_eq!(make_tier(&mut ctx, "n".repeat(64), "u".repeat(201)), Err(RxError::UriTooLong));
    assert!(ctx.tier.is_none());
}

#[test]
fn create_tier_counts_name_in_bytes() {
    let mut ctx = tier_ctx_after_init();
    assert_eq!(make_tier(&mut ctx, "é".repeat(33), String::new()), Err(RxError::NameTooLong));
    assert_eq!(make_tier(&mut ctx, "é".repeat(32), String::new()), Ok(()));
}

#[test]
fn create_tier_by_stranger_is_unauthorized() {
    let mut ctx = tier_ctx_after_init();
    ctx.owner = key(8);
    assert_eq!(make_tier(&mut ctx, "a".to_string(), "b".to_string()), Err(RxError::Unauthorized));
}

#[test]
fn create_tier_on_taken_address_fails() {
    let mut ctx = tier_ctx_after_init();
    assert_eq!(make_tier(&mut ctx, "a".to_string(), "b".to_string()), Ok(()));
    assert_eq!(make_tier(&mut ctx, "c".to_string(), "d".to_string()), Err(RxError::AccountAlreadyInUse));
    assert_eq!(ctx.tier.unwrap().name, "a");
}

#[test]
fn first_subscription_runs_from_now() {
    let mut ctx = subscribe_ctx(tier(1000, Pubkey::zeroed(), 500, 0), Pass::zeroed());
    let r = subscribe_or_renew(&mut ctx, 10_000).unwrap();
    assert_eq!(ctx.pass.expiry_ts, 10_500);
    assert_eq!(ctx.pass.wallet, payer());
    assert_eq!(ctx.pass.creator, creator_key());
    assert_eq!(ctx.pass.tier, tier_key());
    let p: Payment = r.unwrap();
    assert_eq!(p.from, payer());
    assert_eq!(p.to, payout_wallet());
    assert_eq!(p.lamports, 1000);
}

#[test]
fn active_renewal_stacks() {
    let mut ctx = subscribe_ctx(tier(1000, Pubkey::zeroed(), 500, 0), pass_with_expiry(20_000));
    assert!(subscribe_or_renew(&mut ctx, 19_999).is_ok());
    assert_eq!(ctx.pass.expiry_ts, 20_500);
}

#[test]
fn lapsed_renewal_restarts() {
    let mut ctx = subscribe_ctx(tier(1000, Pubkey::zeroed(), 500, 0), pass_with_expiry(20_000));
    assert!(subscribe_or_renew(&mut ctx, 30_000).is_ok());
    assert_eq!(ctx.pass.expiry_ts, 30_500);
}

#[test]
fn renewal_at_expiry_instant_restarts() {
    let mut ctx = subscribe_ctx(tier(1000, Pubkey::zeroed(), 500, 0), pass_with_expiry(20_000));
    assert!(subscribe_or_renew(&mut ctx, 20_000).is_ok());
    assert_eq!(ctx.pass.expiry_ts, 20_500);
}

#[test]
fn daily_tier_three_renewals() {
    let mut ctx = subscribe_ctx(tier(1000, Pubkey::zeroed(), 86400, 0), Pass::zeroed());
    assert!(subscribe_or_renew(&mut ctx, 1000).is_ok());
    assert_eq!(ctx.pass.expiry_ts, 87400);
    assert!(subscribe_or_renew(&mut ctx, 50000).is_ok());
    assert_eq!(ctx.pass.expiry_ts, 173800);
    assert!(subscribe_or_renew(&mut ctx, 200000).is_ok());
    assert_eq!(ctx.pass.expiry_ts, 286400);
}

#[test]
fn token_tier_always_rejected() {
    for pass in [Pass::zeroed(), pass_with_expiry(5), pass_with_expiry(u64::MAX)] {
        for now in [0u64, 10, 1_000_000] {
            let mut ctx = subscribe_ctx(tier(1000, key(6), 100, 0), pass);
            assert_eq!(subscribe_or_renew(&mut ctx, now), Err(RxError::TokenPaymentsNotSupported));
            assert_eq!(ctx.pass.expiry_ts, pass.expiry_ts);
        }
    }
}

#[test]
fn spoofed_payout_rejected_without_changes() {
    let mut ctx = subscribe_ctx(tier(1000, Pubkey::zeroed(), 100, 0), pass_with_expiry(50));
    ctx.payout = key(6);
    assert_eq!(subscribe_or_renew(&mut ctx, 10), Err(RxError::InvalidPayoutWallet));
    assert_eq!(ctx.pass.expiry_ts, 50);
}

#[test]
fn free_tier_owes_no_payment() {
    let mut ctx = subscribe_ctx(tier(0, Pubkey::zeroed(), 100, 0), Pass::zeroed());
    ctx.payout = key(6);
    assert_eq!(subscribe_or_renew(&mut ctx, 10), Ok(None));
    assert_eq!(ctx.pass.expiry_ts, 110);
}

#[test]
fn subscribe_with_foreign_tier_rejected() {
    let mut t = tier(1000, Pubkey::zeroed(), 100, 0);
    t.creator = key(8);
    let mut ctx = subscribe_ctx(t, Pass::zeroed());
    assert_eq!(subscribe_or_renew(&mut ctx, 10), Err(RxError::InvalidTierCreator));
    assert_eq!(ctx.pass.expiry_ts, 0);
}

#[test]
fn subscribe_overflow_rejected() {
    let mut ctx = subscribe_ctx(tier(1000, Pubkey::zeroed(), 100, 0), pass_with_expiry(u64::MAX - 50));
    assert_eq!(subscribe_or_renew(&mut ctx, 10), Err(RxError::MathOverflow));
    assert_eq!(ctx.pass.expiry_ts, u64::MAX - 50);
    let mut fresh = subscribe_ctx(tier(1000, Pubkey::zeroed(), u64::MAX, 0), Pass::zeroed());
    assert_eq!(subscribe_or_renew(&mut fresh, 1), Err(RxError::MathOverflow));
    assert_eq!(fresh.pass.expiry_ts, 0);
}

#[test]
fn grant_uses_one_slot_each() {
    let mut ctx = grant_ctx(tier(1000, Pubkey::zeroed(), 100, 2), Pass::zeroed());
    assert_eq!(grant_scholarship(&mut ctx, 10), Ok(()));
    assert_eq!(ctx.tier.scholarship_remaining, 1);
    assert_eq!(ctx.pass.expiry_ts, 110);
    assert_eq!(ctx.pass.wallet, key(9));
    assert_eq!(grant_scholarship(&mut ctx, 50), Ok(()));
    assert_eq!(ctx.tier.scholarship_remaining, 0);
    assert_eq!(ctx.pass.expiry_ts, 210);
    assert_eq!(grant_scholarship(&mut ctx, 60), Err(RxError::NoScholarshipSlots));
    assert_eq!(ctx.tier.scholarship_remaining, 0);
    assert_eq!(ctx.pass.expiry_ts, 210);
}

#[test]
fn grant_by_stranger_is_unauthorized() {
    let mut ctx = grant_ctx(tier(1000, Pubkey::zeroed(), 100, 2), Pass::zeroed());
    ctx.owner = key(8);
    assert_eq!(grant_scholarship(&mut ctx, 10), Err(RxError::Unauthorized));
    assert_eq!(ctx.tier.scholarship_remaining, 2);
}

#[test]
fn grant_with_foreign_tier_rejected() {
    let mut t = tier(1000, Pubkey::zeroed(), 100, 2);
    t.creator = key(8);
    let mut ctx = grant_ctx(t, Pass::zeroed());
    assert_eq!(grant_scholarship(&mut ctx, 10), Err(RxError::InvalidTierCreator));
}

#[test]
fn grant_overflow_keeps_slot() {
    let mut ctx = grant_ctx(tier(1000, Pubkey::zeroed(), 100, 2), pass_with_expiry(u64::MAX));
    assert_eq!(grant_scholarship(&mut ctx, 10), Err(RxError::MathOverflow));
    assert_eq!(ctx.tier.scholarship_remaining, 2);
    assert_eq!(ctx.pass.expiry_ts, u64::MAX);
}

#[test]
fn refill_adds_slots() {
    let mut ctx = refill_ctx(3);
    assert_eq!(refill_scholarships(&mut ctx, 5), Ok(()));
    assert_eq!(ctx.tier.scholarship_remaining, 8);
}

#[test]
fn refill_to_the_maximum() {
    let mut ctx = refill_ctx(u32::MAX - 5);
    assert_eq!(refill_scholarships(&mut ctx, 5), Ok(()));
    assert_eq!(ctx.tier.scholarship_remaining, u32::MAX);
}

#[test]
fn refill_overflow_leaves_pool() {
    let mut ctx = refill_ctx(u32::MAX - 5);
    assert_eq!(refill_scholarships(&mut ctx, 6), Err(RxError::MathOverflow));
    assert_eq!(ctx.tier.scholarship_remaining, u32::MAX - 5);
}

#[test]
fn refill_by_stranger_is_unauthorized() {
    let mut ctx = refill_ctx(3);
    ctx.owner = key(8);
    assert_eq!(refill_scholarships(&mut ctx, 1), Err(RxError::Unauthorized));
    let mut other = refill_ctx(3);
    other.tier.creator = key(8);
    assert_eq!(refill_scholarships(&mut other, 1), Err(RxError::InvalidTierCreator));
    assert_eq!(other.tier.scholarship_remaining, 3);
}
