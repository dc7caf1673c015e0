use crate::curve::TOKEN_UNIT;
use vstd::prelude::*;
use vstd::utf8::encode_utf8;

verus! {

/// Longest listing name, in UTF-8 bytes, that the record stores.
pub const MAX_NAME_LEN: usize = 32;

/// Whole tokens a new listing offers for sale.
pub const INITIAL_AVAILABLE_TOKENS: u128 = 200_000;

/// Whole tokens a new listing reserves for a liquidity pool.
pub const INITIAL_POOL_MINT_SUPPLY: u128 = 0;

/// Funding goal recorded on a new listing; no transition enforces it.
pub const FUNDING_GOAL: u64 = 350;

/// Funding raised recorded on a new listing; no transition updates it.
pub const INITIAL_FUNDING_RAISED: u64 = 800_000;

/// IEEE-754 binary64 bit pattern of the base price 0.001 of a new listing.
pub const BASE_PRICE_BITS: u64 = 0x3F50_624D_D2F1_A9FC;

/// Decimal places of the traded asset.
pub const TOKEN_DECIMALS: u8 = 6;

/// The persistent record of one market.
///
/// `available_tokens` counts whole tokens still offered by the vault, while
/// `tokens_sold` counts raw units (whole tokens times `TOKEN_UNIT`) held by
/// buyers; the two are kept in these units on purpose, so that pricing stays
/// compatible with records already written.
#[derive(Clone, Debug, PartialEq, Eq)]
pub struct Listing {
    pub name: String,
    pub seed: u64,
    /// Address of the traded asset definition.
    pub mint: [u8; 32],
    pub funding_goal: u64,
    pub pool_mint_supply: u128,
    pub funding_raised: u64,
    pub available_tokens: u128,
    /// Bit pattern of the curve's base price; never computed with here.
    pub base_price_bits: u64,
    pub tokens_sold: u128,
    pub bump: u8,
    pub vault_bump: u8,
    pub mint_bump: u8,
}

/// The name fits the record.
pub open spec fn name_fits(name: Seq<char>) -> bool {
    encode_utf8(name).len() <= MAX_NAME_LEN
}

impl Listing {
    /// A stored listing has a name that fits its record.
    pub open spec fn well_formed(&self) -> bool {
        name_fits(self.name@)
    }

    /// Tokens owned by the listing's supply accounting, in raw units: those
    /// still in the vault plus those held by buyers.
    pub open spec fn raw_supply(&self) -> int {
        self.available_tokens * TOKEN_UNIT + self.tokens_sold
    }
}

/// `10^n`.
pub open spec fn pow10(n: nat) -> nat
    decreases n,
{
    if n == 0 {
        1
    } else {
        10 * pow10((n - 1) as nat)
    }
}

/// Raw units minted into the vault at creation for a listing whose asset has
/// `decimals` decimal places.
pub open spec fn minted_amount(decimals: u8) -> int {
    (INITIAL_AVAILABLE_TOKENS + INITIAL_POOL_MINT_SUPPLY) * pow10(decimals as nat)
}

/// The record a new listing starts with.
pub open spec fn initial_listing(
    seed: u64,
    name: String,
    mint: [u8; 32],
    bump: u8,
    vault_bump: u8,
    mint_bump: u8,
) -> Listing {
    Listing {
        name,
        seed,
        mint,
        funding_goal: FUNDING_GOAL,
        pool_mint_supply: INITIAL_POOL_MINT_SUPPLY,
        funding_raised: INITIAL_FUNDING_RAISED,
        available_tokens: INITIAL_AVAILABLE_TOKENS,
        base_price_bits: BASE_PRICE_BITS,
        tokens_sold: 0,
        bump,
        vault_bump,
        mint_bump,
    }
}

/// `10^n` when it fits a `u64`.
pub fn checked_pow10(n: u8) -> (r: Option<u64>)
    ensures
        r is Some <==> pow10(n as nat) <= u64::MAX,
        r matches Some(v) ==> v == pow10(n as nat),
{
    let mut acc: u64 = 1;
    let mut i: u8 = 0;
    while i < n
        invariant
            i <= n,
            acc == pow10(i as nat),
        decreases n - i,
    {
        if acc > u64::MAX / 10 {
            proof {
                lemma_pow10_monotone((i + 1) as nat, n as nat);
            }
            return None;
        }
        acc = acc * 10;
        i = i + 1;
    }
    Some(acc)
}

/// `10^n` grows with `n`.
pub proof fn lemma_pow10_monotone(m: nat, n: nat)
    requires
        m <= n,
    ensures
        pow10(m) <= pow10(n),
    decreases n - m,
{
    if m < n {
        lemma_pow10_monotone(m, (n - 1) as nat);
    }
}

} // verus!
