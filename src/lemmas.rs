use crate::accounts::{CreateTier, GrantScholarship, InitCreator, RefillScholarships, SubscribeOrRenew};
use crate::error::RxError;
use crate::program::{
    create_tier_error, created_creator, grant_error, payment_due, refill_error,
    subscribe_error, subscribe_payment, subscribed_pass,
};
use crate::pubkey::Pubkey;
use vstd::prelude::*;

verus! {

/// A creator that was just registered can create a tier at a vacant address
/// exactly when the name fits in 64 bytes and the URI in 200: a longer name is
/// rejected as too long, and so is a longer URI with a name that fits.
pub proof fn lemma_fresh_creator_tier_bounds(
    init: InitCreator,
    payout_wallet: Pubkey,
    tier_key: Pubkey,
    name_len: nat,
    uri_len: nat,
)
    requires
        init.creator is None,
    ensures
        ({
            let ctx = CreateTier {
                creator_key: init.creator_key,
                creator: created_creator(init, payout_wallet),
                tier_key,
                tier: None,
                owner: init.owner,
            };
            &&& (name_len <= 64 && uri_len <= 200) ==> create_tier_error(ctx, name_len, uri_len)
                is None
            &&& name_len > 64 ==> create_tier_error(ctx, name_len, uri_len) == Some(
                RxError::NameTooLong,
            )
            &&& (name_len <= 64 && uri_len > 200) ==> create_tier_error(ctx, name_len, uri_len)
                == Some(RxError::UriTooLong)
        }),
{
}

/// A first subscription at `now` issues the pass to the payer under the
/// request's creator and tier, valid until `now` plus the tier's duration.
pub proof fn lemma_first_subscription(ctx: SubscribeOrRenew, now: u64)
    requires
        ctx.pass.expiry_ts == 0,
        subscribe_error(ctx, now) is None,
    ensures
        subscribed_pass(ctx, now).expiry_ts == now + ctx.tier.duration_sec,
        subscribed_pass(ctx, now).wallet == ctx.payer,
        subscribed_pass(ctx, now).creator == ctx.creator_key,
        subscribed_pass(ctx, now).tier == ctx.tier_key,
{
}

/// Renewing before the pass expires stacks one more period on the current
/// expiry; the pass keeps its creator, tier and holder.
pub proof fn lemma_active_renewal_stacks(ctx: SubscribeOrRenew, now: u64)
    requires
        now < ctx.pass.expiry_ts,
        subscribe_error(ctx, now) is None,
    ensures
        subscribed_pass(ctx, now).expiry_ts == ctx.pass.expiry_ts + ctx.tier.duration_sec,
        subscribed_pass(ctx, now).wallet == ctx.pass.wallet,
        subscribed_pass(ctx, now).creator == ctx.pass.creator,
        subscribed_pass(ctx, now).tier == ctx.pass.tier,
{
}

/// Renewing a lapsed pass, at its expiry instant or later, starts a fresh
/// period at `now` with no credit for the time that passed.
pub proof fn lemma_lapsed_renewal_restarts(ctx: SubscribeOrRenew, now: u64)
    requires
        ctx.pass.expiry_ts <= now,
        subscribe_error(ctx, now) is None,
    ensures
        subscribed_pass(ctx, now).expiry_ts == now + ctx.tier.duration_sec,
{
}

/// A granted scholarship uses exactly one slot, and a grant from an empty pool
/// of an authorized creator and a matching tier fails with
/// `NoScholarshipSlots`; the pool never goes below zero.
pub proof fn lemma_grant_uses_one_slot(ctx: GrantScholarship, now: u64)
    ensures
        grant_error(ctx, now) is None ==> ctx.tier.scholarship_remaining >= 1,
        (ctx.creator.owner == ctx.owner && ctx.tier.creator == ctx.creator_key
            && ctx.tier.scholarship_remaining == 0) ==> grant_error(ctx, now) == Some(
            RxError::NoScholarshipSlots,
        ),
{
}

/// For an authorized creator and a matching tier, a refill succeeds exactly
/// when the enlarged pool fits in a `u32`, and fails with `MathOverflow`
/// otherwise.
pub proof fn lemma_refill_adds_slots(ctx: RefillScholarships, add_slots: u32)
    requires
        ctx.creator.owner == ctx.owner,
        ctx.tier.creator == ctx.creator_key,
    ensures
        ctx.tier.scholarship_remaining + add_slots <= u32::MAX ==> refill_error(ctx, add_slots)
            is None,
        ctx.tier.scholarship_remaining + add_slots > u32::MAX ==> refill_error(ctx, add_slots)
            == Some(RxError::MathOverflow),
{
}

/// A paid subscription to a tier of the request's creator, with a payout
/// account other than the creator's payout wallet, fails with
/// `InvalidPayoutWallet`, whatever state the pass is in.
pub proof fn lemma_spoofed_payout_rejected(ctx: SubscribeOrRenew, now: u64)
    requires
        ctx.tier.creator == ctx.creator_key,
        payment_due(ctx.tier),
        ctx.payout != ctx.creator.payout_wallet,
    ensures
        subscribe_error(ctx, now) == Some(RxError::InvalidPayoutWallet),
{
}

/// A subscription to a tier of the request's creator that is priced in a
/// token fails with `TokenPaymentsNotSupported`, whatever state the pass is in.
pub proof fn lemma_token_tier_rejected(ctx: SubscribeOrRenew, now: u64)
    requires
        ctx.tier.creator == ctx.creator_key,
        !ctx.tier.token_mint.spec_is_default(),
    ensures
        subscribe_error(ctx, now) == Some(RxError::TokenPaymentsNotSupported),
{
}

/// A successful subscription owes a payment exactly when the tier is priced
/// above zero in the native currency, and then it sends the full price from
/// the payer to the creator's payout wallet.
pub proof fn lemma_payment_goes_to_payout_wallet(ctx: SubscribeOrRenew, now: u64)
    requires
        subscribe_error(ctx, now) is None,
    ensures
        subscribe_payment(ctx) is Some <==> payment_due(ctx.tier),
        subscribe_payment(ctx) matches Some(p) ==> p.from == ctx.payer && p.to
            == ctx.creator.payout_wallet && p.lamports == ctx.tier.price_lamports,
{
}

} // verus!
