pub mod accounts;
pub mod error;
pub mod expiry;
pub mod lemmas;
pub mod program;
pub mod pubkey;
pub mod state;

pub use accounts::{
    CreateTier, GrantScholarship, InitCreator, Payment, RefillScholarships, SubscribeOrRenew,
};
pub use error::RxError;
pub use program::{
    create_tier, grant_scholarship, init_creator, refill_scholarships, subscribe_or_renew,
};
pub use pubkey::Pubkey;
pub use state::{Creator, Pass, Tier};
