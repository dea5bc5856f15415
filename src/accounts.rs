use crate::pubkey::Pubkey;
use crate::state::{Creator, Pass, Tier};
use vstd::prelude::*;

verus! {

// Each context holds the records that one request reads or writes, as the host
// ledger located them, together with their addresses and the request's
// authenticated signer. Deriving those addresses is the host's business.

/// Records of a request that registers a creator.
pub struct InitCreator {
    pub creator_key: Pubkey,
    /// The record at `creator_key`: `None` while the address is vacant.
    pub creator: Option<Creator>,
    /// The signer, who becomes the creator's owner.
    pub owner: Pubkey,
}

/// Records of a request that creates a tier.
pub struct CreateTier {
    pub creator_key: Pubkey,
    pub creator: Creator,
    pub tier_key: Pubkey,
    /// The record at `tier_key`: `None` while the address is vacant.
    pub tier: Option<Tier>,
    /// The signer.
    pub owner: Pubkey,
}

/// Records of a paid subscription or renewal.
pub struct SubscribeOrRenew {
    pub creator_key: Pubkey,
    pub creator: Creator,
    pub tier_key: Pubkey,
    pub tier: Tier,
    /// The account that the payment is sent to.
    pub payout: Pubkey,
    /// The payer's pass for this tier; all zero when never issued.
    pub pass: Pass,
    /// The signer, who pays and holds the pass.
    pub payer: Pubkey,
}

/// Records of a free grant from a tier's scholarship pool.
pub struct GrantScholarship {
    pub creator_key: Pubkey,
    pub creator: Creator,
    pub tier_key: Pubkey,
    pub tier: Tier,
    /// The beneficiary's pass for this tier; all zero when never issued.
    pub pass: Pass,
    /// Who receives the pass; need not sign.
    pub beneficiary: Pubkey,
    /// The signer.
    pub owner: Pubkey,
}

/// Records of a request that adds slots to a tier's scholarship pool.
pub struct RefillScholarships {
    pub creator_key: Pubkey,
    pub creator: Creator,
    pub tier_key: Pubkey,
    pub tier: Tier,
    /// The signer.
    pub owner: Pubkey,
}

/// A transfer of native currency that a successful request owes. The host
/// carries it out in the same atomic commit as the record writes.
#[derive(Clone, Copy, Debug, PartialEq, Eq)]
pub struct Payment {
    pub from: Pubkey,
    pub to: Pubkey,
    pub lamports: u64,
}

} // verus!
