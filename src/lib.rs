//! Verified core of a fixed-supply token market priced by a bonding curve.
//!
//! The library decides every state transition of a listing (create, buy,
//! sell, burn) and says which ledger movements the host must perform; the
//! host performs them atomically together with the new listing record.
pub mod curve;
pub mod error;
pub mod laws;
pub mod listing;
pub mod market;
pub mod seeds;

pub use curve::{BongingCurve, PRICE_STEPS, TOKEN_UNIT};
pub use error::PumpError;
pub use laws::Trade;
pub use listing::{
    checked_pow10, Listing, BASE_PRICE_BITS, FUNDING_GOAL, INITIAL_AVAILABLE_TOKENS,
    INITIAL_FUNDING_RAISED, INITIAL_POOL_MINT_SUPPLY, MAX_NAME_LEN, TOKEN_DECIMALS,
};
pub use market::{burn_tokens, buy, create_listing, sell, Action};
pub use seeds::{signer_seeds, SeedTag};
