use crate::accounts::{
    CreateTier, GrantScholarship, InitCreator, Payment, RefillScholarships, SubscribeOrRenew,
};
use crate::error::RxError;
use crate::expiry::{extend_expiry, extended_expiry};
use crate::pubkey::Pubkey;
use crate::state::{byte_len, utf8_len, Creator, Pass, Tier};
use vstd::prelude::*;

verus! {

/// The creator record that `init_creator` writes.
pub open spec fn created_creator(ctx: InitCreator, payout_wallet: Pubkey) -> Creator {
    Creator { owner: ctx.owner, payout_wallet }
}

/// Registers the signer as a creator paid at `payout_wallet`. Fails when a
/// record already exists at the creator's address.
pub fn init_creator(ctx: &mut InitCreator, payout_wallet: Pubkey) -> (r: Result<(), RxError>)
    ensures
        old(ctx).creator is Some ==> r == Err::<(), RxError>(RxError::AccountAlreadyInUse)
            && *final(ctx) == *old(ctx),
        old(ctx).creator is None ==> r == Ok::<(), RxError>(()) && final(ctx).creator == Some(
            created_creator(*old(ctx), payout_wallet),
        ) && final(ctx).creator_key == old(ctx).creator_key && final(ctx).owner == old(
            ctx,
        ).owner,
{
    if ctx.creator.is_some() {
        return Err(RxError::AccountAlreadyInUse);
    }
    ctx.creator = Some(Creator { owner: ctx.owner, payout_wallet });
    Ok(())
}

/// Why `create_tier` rejects a request whose name and URI take `name_len` and
/// `uri_len` bytes, checked in this order; `None` when it succeeds.
pub open spec fn create_tier_error(ctx: CreateTier, name_len: nat, uri_len: nat) -> Option<
    RxError,
> {
    if ctx.creator.owner != ctx.owner {
        Some(RxError::Unauthorized)
    } else if ctx.tier is Some {
        Some(RxError::AccountAlreadyInUse)
    } else if name_len > Tier::NAME_MAX {
        Some(RxError::NameTooLong)
    } else if uri_len > Tier::URI_MAX {
        Some(RxError::UriTooLong)
    } else {
        None
    }
}

/// Creates a tier of the signer's creator, with every field as given.
pub fn create_tier(
    ctx: &mut CreateTier,
    index: u32,
    price_lamports: u64,
    token_mint: Pubkey,
    duration_sec: u64,
    name: String,
    uri: String,
    scholarship_remaining: u32,
) -> (r: Result<(), RxError>)
    ensures
        ({
            let err = create_tier_error(*old(ctx), utf8_len(name@), utf8_len(uri@));
            match err {
                Some(e) => r == Err::<(), RxError>(e) && *final(ctx) == *old(ctx),
                None => r == Ok::<(), RxError>(()) && final(ctx).tier == Some(
                    (Tier {
                        creator: old(ctx).creator_key,
                        index,
                        price_lamports,
                        token_mint,
                        duration_sec,
                        name,
                        uri,
                        scholarship_remaining,
                    }),
                ) && final(ctx).creator_key == old(ctx).creator_key && final(ctx).creator == old(
                    ctx,
                ).creator && final(ctx).tier_key == old(ctx).tier_key && final(ctx).owner == old(
                    ctx,
                ).owner,
            }
        }),
{
    if ctx.creator.owner != ctx.owner {
        return Err(RxError::Unauthorized);
    }
    if ctx.tier.is_some() {
        return Err(RxError::AccountAlreadyInUse);
    }
    if byte_len(&name) > Tier::NAME_MAX {
        return Err(RxError::NameTooLong);
    }
    if byte_len(&uri) > Tier::URI_MAX {
        return Err(RxError::UriTooLong);
    }
    ctx.tier = Some(
        Tier {
            creator: ctx.creator_key,
            index,
            price_lamports,
            token_mint,
            duration_sec,
            name,
            uri,
            scholarship_remaining,
        },
    );
    Ok(())
}

/// The pass after one more period: a pass never issued is issued to `wallet`
/// under the given creator and tier; an issued pass keeps its owner fields and
/// only its expiry moves.
pub open spec fn renewed_pass(
    pass: Pass,
    creator_key: Pubkey,
    tier_key: Pubkey,
    wallet: Pubkey,
    now: u64,
    duration: u64,
) -> Pass {
    let expiry_ts = extended_expiry(pass.expiry_ts, now, duration) as u64;
    if pass.expiry_ts == 0 {
        Pass { creator: creator_key, tier: tier_key, wallet, expiry_ts }
    } else {
        Pass { expiry_ts, ..pass }
    }
}

/// Issues or extends `pass`, or `None` when the new expiry would overflow.
fn renew(pass: &Pass, creator_key: Pubkey, tier_key: Pubkey, wallet: Pubkey, now: u64, duration: u64) -> (r:
    Option<Pass>)
    ensures
        r == (if extended_expiry(pass.expiry_ts, now, duration) <= u64::MAX {
            Some(renewed_pass(*pass, creator_key, tier_key, wallet, now, duration))
        } else {
            None::<Pass>
        }),
{
    match extend_expiry(pass.expiry_ts, now, duration) {
        None => None,
        Some(expiry_ts) => {
            if pass.expiry_ts == 0 {
                Some(Pass { creator: creator_key, tier: tier_key, wallet, expiry_ts })
            } else {
                Some(Pass { creator: pass.creator, tier: pass.tier, wallet: pass.wallet, expiry_ts })
            }
        },
    }
}

/// A tier owes a payment on subscription when it is priced above zero in the
/// native currency.
pub open spec fn payment_due(tier: Tier) -> bool {
    tier.token_mint.spec_is_default() && tier.price_lamports > 0
}

/// Why `subscribe_or_renew` rejects a request at `now`, checked in this
/// order; `None` when it succeeds.
pub open spec fn subscribe_error(ctx: SubscribeOrRenew, now: u64) -> Option<RxError> {
    if ctx.tier.creator != ctx.creator_key {
        Some(RxError::InvalidTierCreator)
    } else if payment_due(ctx.tier) && ctx.payout != ctx.creator.payout_wallet {
        Some(RxError::InvalidPayoutWallet)
    } else if !ctx.tier.token_mint.spec_is_default() {
        Some(RxError::TokenPaymentsNotSupported)
    } else if extended_expiry(ctx.pass.expiry_ts, now, ctx.tier.duration_sec) > u64::MAX {
        Some(RxError::MathOverflow)
    } else {
        None
    }
}

/// The payer's pass after a successful `subscribe_or_renew` at `now`.
pub open spec fn subscribed_pass(ctx: SubscribeOrRenew, now: u64) -> Pass {
    renewed_pass(ctx.pass, ctx.creator_key, ctx.tier_key, ctx.payer, now, ctx.tier.duration_sec)
}

/// The payment that a successful `subscribe_or_renew` owes.
pub open spec fn subscribe_payment(ctx: SubscribeOrRenew) -> Option<Payment> {
    if payment_due(ctx.tier) {
        Some(Payment { from: ctx.payer, to: ctx.payout, lamports: ctx.tier.price_lamports })
    } else {
        None
    }
}

/// Buys one period of the tier for the payer at time `now`: issues the pass,
/// extends it while active, or restarts it once lapsed. Returns the payment
/// to carry out with the new pass; on any error nothing changes and nothing
/// is owed.
pub fn subscribe_or_renew(ctx: &mut SubscribeOrRenew, now: u64) -> (r: Result<
    Option<Payment>,
    RxError,
>)
    ensures
        ({
            match subscribe_error(*old(ctx), now) {
                Some(e) => r == Err::<Option<Payment>, RxError>(e) && *final(ctx) == *old(ctx),
                None => r == Ok::<Option<Payment>, RxError>(subscribe_payment(*old(ctx)))
                    && final(ctx).pass == subscribed_pass(*old(ctx), now) && final(ctx).creator_key
                    == old(ctx).creator_key && final(ctx).creator == old(ctx).creator
                    && final(ctx).tier_key == old(ctx).tier_key && final(ctx).tier == old(ctx).tier
                    && final(ctx).payout == old(ctx).payout && final(ctx).payer == old(ctx).payer,
            }
        }),
{
    if ctx.tier.creator != ctx.creator_key {
        return Err(RxError::InvalidTierCreator);
    }
    let native = ctx.tier.token_mint.is_default();
    let payment = if native && ctx.tier.price_lamports > 0 {
        if ctx.payout != ctx.creator.payout_wallet {
            return Err(RxError::InvalidPayoutWallet);
        }
        Some(Payment { from: ctx.payer, to: ctx.payout, lamports: ctx.tier.price_lamports })
    } else {
        if !native {
            return Err(RxError::TokenPaymentsNotSupported);
        }
        None
    };
    match renew(&ctx.pass, ctx.creator_key, ctx.tier_key, ctx.payer, now, ctx.tier.duration_sec) {
        None => Err(RxError::MathOverflow),
        Some(pass) => {
            ctx.pass = pass;
            Ok(payment)
        },
    }
}

/// Why `grant_scholarship` rejects a request at `now`, checked in this order;
/// `None` when it succeeds.
pub open spec fn grant_error(ctx: GrantScholarship, now: u64) -> Option<RxError> {
    if ctx.creator.owner != ctx.owner {
        Some(RxError::Unauthorized)
    } else if ctx.tier.creator != ctx.creator_key {
        Some(RxError::InvalidTierCreator)
    } else if ctx.tier.scholarship_remaining == 0 {
        Some(RxError::NoScholarshipSlots)
    } else if extended_expiry(ctx.pass.expiry_ts, now, ctx.tier.duration_sec) > u64::MAX {
        Some(RxError::MathOverflow)
    } else {
        None
    }
}

/// The beneficiary's pass after a successful `grant_scholarship` at `now`.
pub open spec fn granted_pass(ctx: GrantScholarship, now: u64) -> Pass {
    renewed_pass(
        ctx.pass,
        ctx.creator_key,
        ctx.tier_key,
        ctx.beneficiary,
        now,
        ctx.tier.duration_sec,
    )
}

/// The creator gives the beneficiary one period of the tier for free at time
/// `now`, drawing one slot from the tier's scholarship pool.
pub fn grant_scholarship(ctx: &mut GrantScholarship, now: u64) -> (r: Result<(), RxError>)
    ensures
        ({
            match grant_error(*old(ctx), now) {
                Some(e) => r == Err::<(), RxError>(e) && *final(ctx) == *old(ctx),
                None => r == Ok::<(), RxError>(()) && final(ctx).tier.scholarship_remaining == old(
                    ctx,
                ).tier.scholarship_remaining - 1 && final(ctx).tier == (Tier {
                    scholarship_remaining: final(ctx).tier.scholarship_remaining,
                    ..old(ctx).tier
                }) && final(ctx).pass == granted_pass(*old(ctx), now) && final(ctx).creator_key
                    == old(ctx).creator_key && final(ctx).creator == old(ctx).creator
                    && final(ctx).tier_key == old(ctx).tier_key && final(ctx).beneficiary == old(
                    ctx,
                ).beneficiary && final(ctx).owner == old(ctx).owner,
            }
        }),
{
    if ctx.creator.owner != ctx.owner {
        return Err(RxError::Unauthorized);
    }
    if ctx.tier.creator != ctx.creator_key {
        return Err(RxError::InvalidTierCreator);
    }
    if ctx.tier.scholarship_remaining == 0 {
        return Err(RxError::NoScholarshipSlots);
    }
    let remaining = match ctx.tier.scholarship_remaining.checked_sub(1) {
        Some(v) => v,
        None => return Err(RxError::MathOverflow),
    };
    match renew(&ctx.pass, ctx.creator_key, ctx.tier_key, ctx.beneficiary, now, ctx.tier.duration_sec) {
        None => Err(RxError::MathOverflow),
        Some(pass) => {
            ctx.tier.scholarship_remaining = remaining;
            ctx.pass = pass;
            Ok(())
        },
    }
}

/// Why `refill_scholarships` rejects a request that adds `add_slots`, checked
/// in this order; `None` when it succeeds.
pub open spec fn refill_error(ctx: RefillScholarships, add_slots: u32) -> Option<RxError> {
    if ctx.creator.owner != ctx.owner {
        Some(RxError::Unauthorized)
    } else if ctx.tier.creator != ctx.creator_key {
        Some(RxError::InvalidTierCreator)
    } else if ctx.tier.scholarship_remaining + add_slots > u32::MAX {
        Some(RxError::MathOverflow)
    } else {
        None
    }
}

/// The creator adds `add_slots` free grants to the tier's scholarship pool.
pub fn refill_scholarships(ctx: &mut RefillScholarships, add_slots: u32) -> (r: Result<(), RxError>)
    ensures
        ({
            match refill_error(*old(ctx), add_slots) {
                Some(e) => r == Err::<(), RxError>(e) && *final(ctx) == *old(ctx),
                None => r == Ok::<(), RxError>(()) && final(ctx).tier.scholarship_remaining == old(
                    ctx,
                ).tier.scholarship_remaining + add_slots && final(ctx).tier == (Tier {
                    scholarship_remaining: final(ctx).tier.scholarship_remaining,
                    ..old(ctx).tier
                }) && final(ctx).creator_key == old(ctx).creator_key && final(ctx).creator == old(
                    ctx,
                ).creator && final(ctx).tier_key == old(ctx).tier_key && final(ctx).owner == old(
                    ctx,
                ).owner,
            }
        }),
{
    if ctx.creator.owner != ctx.owner {
        return Err(RxError::Unauthorized);
    }
    if ctx.tier.creator != ctx.creator_key {
        return Err(RxError::InvalidTierCreator);
    }
    match ctx.tier.scholarship_remaining.checked_add(add_slots) {
        None => Err(RxError::MathOverflow),
        Some(v) => {
            ctx.tier.scholarship_remaining = v;
            Ok(())
        },
    }
}

} // verus!
