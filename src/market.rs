use crate::curve::TOKEN_UNIT;
use crate::error::PumpError;
use crate::listing::{
    checked_pow10, initial_listing, minted_amount, name_fits, pow10, Listing, BASE_PRICE_BITS,
    FUNDING_GOAL, INITIAL_AVAILABLE_TOKENS, INITIAL_FUNDING_RAISED, INITIAL_POOL_MINT_SUPPLY,
    MAX_NAME_LEN,
};
use vstd::prelude::*;

verus! {

/// A ledger movement that the host performs for a transition, in the order
/// given, atomically with the new listing record.
#[derive(Clone, Copy, Debug, PartialEq, Eq, Structural)]
pub enum Action {
    /// Mint `amount` raw units into the token vault, signed by the listing.
    MintToVault { amount: u64 },
    /// Set the asset's minting authority to none, for good.
    RevokeMintAuthority,
    /// Move `lamports` of collateral from the buyer to the collateral vault.
    CollateralToVault { lamports: u64 },
    /// Move `amount` raw units from the token vault to the buyer, signed by
    /// the listing.
    TokensToHolder { amount: u64 },
    /// Move `amount` raw units from the seller to the token vault.
    TokensToVault { amount: u64 },
    /// Move `lamports` of collateral from the collateral vault to the seller,
    /// signed by the vault.
    CollateralToHolder { lamports: u64 },
    /// Destroy `amount` raw units held by the signing holder.
    BurnFromHolder { amount: u64 },
}

/// Raw units that these actions newly issue.
pub open spec fn issued(actions: Seq<Action>) -> int
    decreases actions.len(),
{
    if actions.len() == 0 {
        0
    } else {
        let rest = issued(actions.drop_last());
        match actions.last() {
            Action::MintToVault { amount } => rest + amount,
            _ => rest,
        }
    }
}

/// Some action changes the minting authority or mints.
pub open spec fn touches_mint_authority(actions: Seq<Action>) -> bool {
    exists|i: int|
        0 <= i < actions.len() && (#[trigger] actions[i] is MintToVault
            || actions[i] is RevokeMintAuthority)
}

/// What creating a listing decides: the record, or why not.
pub open spec fn create_outcome(
    seed: u64,
    name: String,
    mint: [u8; 32],
    bump: u8,
    vault_bump: u8,
    mint_bump: u8,
    decimals: u8,
) -> Result<Listing, PumpError> {
    if !name_fits(name@) {
        Err(PumpError::NameTooLong)
    } else if minted_amount(decimals) > u64::MAX {
        Err(PumpError::MathOverflow)
    } else {
        Ok(initial_listing(seed, name, mint, bump, vault_bump, mint_bump))
    }
}

/// The movements of a creation: one mint of the whole supply, then the
/// revocation of the minting authority.
pub open spec fn create_actions(decimals: u8) -> Seq<Action> {
    seq![Action::MintToVault { amount: minted_amount(decimals) as u64 }, Action::RevokeMintAuthority]
}

/// What a buy of `amount` raw units decides.
pub open spec fn buy_outcome(l: Listing, amount: u128) -> Result<Listing, PumpError> {
    if amount == 0 {
        Err(PumpError::InvalidAmount)
    } else if amount > u64::MAX {
        Err(PumpError::MathOverflow)
    } else if amount / TOKEN_UNIT > l.available_tokens {
        Err(PumpError::InsufficientTokens)
    } else if l.tokens_sold + amount > u128::MAX {
        Err(PumpError::Overflow)
    } else {
        Ok(
            Listing {
                available_tokens: (l.available_tokens - amount / TOKEN_UNIT) as u128,
                tokens_sold: (l.tokens_sold + amount) as u128,
                ..l
            },
        )
    }
}

/// The movements of a buy: the price in, then the tokens out.
pub open spec fn buy_actions(amount: u128, cost: u64) -> Seq<Action> {
    seq![Action::CollateralToVault { lamports: cost }, Action::TokensToHolder { amount: amount as u64 }]
}

/// What a sell of `amount` raw units decides.
pub open spec fn sell_outcome(l: Listing, amount: u128) -> Result<Listing, PumpError> {
    if amount == 0 {
        Err(PumpError::InvalidAmount)
    } else if amount > u64::MAX {
        Err(PumpError::MathOverflow)
    } else if amount > l.tokens_sold {
        Err(PumpError::InsufficientTokens)
    } else if l.available_tokens + amount / TOKEN_UNIT > u128::MAX {
        Err(PumpError::Overflow)
    } else {
        Ok(
            Listing {
                available_tokens: (l.available_tokens + amount / TOKEN_UNIT) as u128,
                tokens_sold: (l.tokens_sold - amount) as u128,
                ..l
            },
        )
    }
}

/// The movements of a sell: the tokens in, then the value out.
pub open spec fn sell_actions(amount: u128, value: u64) -> Seq<Action> {
    seq![Action::TokensToVault { amount: amount as u64 }, Action::CollateralToHolder { lamports: value }]
}

/// The movements of a burn.
pub open spec fn burn_actions(amount: u64) -> Seq<Action> {
    seq![Action::BurnFromHolder { amount }]
}

/// Creates a listing for market `seed`: the record with the fixed initial
/// parameters, and the one mint of the whole supply into the vault followed
/// by the revocation of the minting authority. `decimals` is the asset's
/// decimal precision; the bumps are the salts of the listing, collateral
/// vault and asset addresses.
pub fn create_listing(
    seed: u64,
    name: String,
    mint: [u8; 32],
    bump: u8,
    vault_bump: u8,
    mint_bump: u8,
    decimals: u8,
) -> (r: Result<(Listing, Vec<Action>), PumpError>)
    ensures
        match create_outcome(seed, name, mint, bump, vault_bump, mint_bump, decimals) {
            Ok(l) => r matches Ok((listing, actions)) && listing == l && listing.well_formed()
                && actions@ == create_actions(decimals),
            Err(e) => r == Err::<(Listing, Vec<Action>), PumpError>(e),
        },
{
    if name.as_str().as_bytes().len() > MAX_NAME_LEN {
        return Err(PumpError::NameTooLong);
    }
    let total_supply = match INITIAL_AVAILABLE_TOKENS.checked_add(INITIAL_POOL_MINT_SUPPLY) {
        Some(t) => t,
        None => return Err(PumpError::Overflow),
    };
    let scale = match checked_pow10(decimals) {
        Some(s) => s,
        None => {
            proof {
                assert(minted_amount(decimals) > u64::MAX) by (nonlinear_arith)
                    requires
                        pow10(decimals as nat) > u64::MAX,
                        minted_amount(decimals) == 200_000 * pow10(decimals as nat),
                ;
            }
            return Err(PumpError::MathOverflow);
        },
    };
    let minted = match total_supply.checked_mul(scale as u128) {
        Some(m) => m,
        None => return Err(PumpError::MathOverflow),
    };
    if minted > u64::MAX as u128 {
        return Err(PumpError::MathOverflow);
    }
    let listing = Listing {
        name,
        seed,
        mint,
        funding_goal: FUNDING_GOAL,
        pool_mint_supply: INITIAL_POOL_MINT_SUPPLY,
        funding_raised: INITIAL_FUNDING_RAISED,
        available_tokens: INITIAL_AVAILABLE_TOKENS,
        base_price_bits: BASE_PRICE_BITS,
        tokens_sold: 0,
        bump,
        vault_bump,
        mint_bump,
    };
    let actions = vec![Action::MintToVault { amount: minted as u64 }, Action::RevokeMintAuthority];
    assert(actions@ =~= create_actions(decimals));
    Ok((listing, actions))
}

/// Buys `amount` raw units from the vault at the curve price `cost`, which
/// the host computed from the listing before the call. On success the vault
/// offers `amount / TOKEN_UNIT` fewer whole tokens and `amount` more raw
/// units count as sold; on failure nothing changes and nothing moves.
pub fn buy(listing: &mut Listing, amount: u128, cost: u64) -> (r: Result<Vec<Action>, PumpError>)
    ensures
        match buy_outcome(*old(listing), amount) {
            Ok(l) => {
                &&& *final(listing) == l
                &&& r matches Ok(actions) && actions@ == buy_actions(amount, cost)
            },
            Err(e) => *final(listing) == *old(listing) && r == Err::<Vec<Action>, PumpError>(e),
        },
{
    if amount == 0 {
        return Err(PumpError::InvalidAmount);
    }
    if amount > u64::MAX as u128 {
        return Err(PumpError::MathOverflow);
    }
    let available = match listing.available_tokens.checked_sub(amount / TOKEN_UNIT) {
        Some(a) => a,
        None => return Err(PumpError::InsufficientTokens),
    };
    let sold = match listing.tokens_sold.checked_add(amount) {
        Some(s) => s,
        None => return Err(PumpError::Overflow),
    };
    listing.available_tokens = available;
    listing.tokens_sold = sold;
    let actions = vec![
        Action::CollateralToVault { lamports: cost },
        Action::TokensToHolder { amount: amount as u64 },
    ];
    assert(actions@ =~= buy_actions(amount, cost));
    Ok(actions)
}

/// Sells `amount` raw units back to the vault for the curve value `value`,
/// which the host computed from the listing before the call. On success the
/// vault offers `amount / TOKEN_UNIT` more whole tokens and `amount` fewer
/// raw units count as sold; on failure nothing changes and nothing moves.
pub fn sell(listing: &mut Listing, amount: u128, value: u64) -> (r: Result<Vec<Action>, PumpError>)
    ensures
        match sell_outcome(*old(listing), amount) {
            Ok(l) => {
                &&& *final(listing) == l
                &&& r matches Ok(actions) && actions@ == sell_actions(amount, value)
            },
            Err(e) => *final(listing) == *old(listing) && r == Err::<Vec<Action>, PumpError>(e),
        },
{
    if amount == 0 {
        return Err(PumpError::InvalidAmount);
    }
    if amount > u64::MAX as u128 {
        return Err(PumpError::MathOverflow);
    }
    let sold = match listing.tokens_sold.checked_sub(amount) {
        Some(s) => s,
        None => return Err(PumpError::InsufficientTokens),
    };
    let available = match listing.available_tokens.checked_add(amount / TOKEN_UNIT) {
        Some(a) => a,
        None => return Err(PumpError::Overflow),
    };
    listing.available_tokens = available;
    listing.tokens_sold = sold;
    let actions = vec![
        Action::TokensToVault { amount: amount as u64 },
        Action::CollateralToHolder { lamports: value },
    ];
    assert(actions@ =~= sell_actions(amount, value));
    Ok(actions)
}

/// Burns `amount` raw units from the signing holder. The listing record is
/// not involved: burning leaves the market's supply accounting alone.
pub fn burn_tokens(amount: u64) -> (r: Vec<Action>)
    ensures
        r@ == burn_actions(amount),
{
    let actions = vec![Action::BurnFromHolder { amount }];
    assert(actions@ =~= burn_actions(amount));
    actions
}

} // verus!
