use crate::pubkey::Pubkey;
use vstd::prelude::*;

verus! {

/// A creator: the principal that defines tiers and receives their payments.
#[derive(Clone, Copy, Debug)]
pub struct Creator {
    pub owner: Pubkey,
    pub payout_wallet: Pubkey,
}

impl Creator {
    /// Stored size in bytes: an 8-byte record tag and two addresses.
    pub const SPACE: usize = 8 + 32 + 32;
}

/// A priced, time-bounded subscription plan of one creator, with a pool of
/// free grants. Only `scholarship_remaining` changes after creation.
#[derive(Clone, Debug)]
pub struct Tier {
    /// Address of the creator record that the tier belongs to.
    pub creator: Pubkey,
    pub index: u32,
    pub price_lamports: u64,
    /// The all-zero address prices the tier in the native currency.
    pub token_mint: Pubkey,
    pub duration_sec: u64,
    pub name: String,
    pub uri: String,
    pub scholarship_remaining: u32,
}

impl Tier {
    /// Largest name, in UTF-8 bytes.
    pub const NAME_MAX: usize = 64;

    /// Largest URI, in UTF-8 bytes.
    pub const URI_MAX: usize = 200;

    /// Stored size in bytes: the record tag, the fixed fields, and each text
    /// field as a 4-byte length and its largest content.
    pub const SPACE: usize = 8 + 32 + 4 + 8 + 32 + 8 + 4 + 64 + 4 + 200 + 4;
}

/// A subscriber's access to one tier, valid until `expiry_ts`. An
/// `expiry_ts` of zero means that the pass was never issued.
#[derive(Clone, Copy, Debug)]
pub struct Pass {
    pub creator: Pubkey,
    pub tier: Pubkey,
    pub wallet: Pubkey,
    pub expiry_ts: u64,
}

impl Pass {
    /// Stored size in bytes: the record tag, three addresses and the expiry.
    pub const SPACE: usize = 8 + 32 + 32 + 32 + 8;

    /// A pass record as it reads before it was ever issued: all zero.
    pub fn zeroed() -> (r: Pass)
        ensures
            r.creator.spec_is_default(),
            r.tier.spec_is_default(),
            r.wallet.spec_is_default(),
            r.expiry_ts == 0,
    {
        Pass {
            creator: Pubkey::zeroed(),
            tier: Pubkey::zeroed(),
            wallet: Pubkey::zeroed(),
            expiry_ts: 0,
        }
    }
}

/// Length in bytes of the UTF-8 encoding of `s`.
pub open spec fn utf8_len(s: Seq<char>) -> nat {
    vstd::utf8::encode_utf8(s).len()
}

/// Length in bytes of the UTF-8 encoding of `s`.
pub fn byte_len(s: &String) -> (r: usize)
    ensures
        r == utf8_len(s@),
{
    s.as_str().as_bytes().len()
}

} // verus!
