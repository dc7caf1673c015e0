use crate::curve::TOKEN_UNIT;
use crate::listing::{minted_amount, pow10, Listing, TOKEN_DECIMALS};
use crate::market::{
    burn_actions, buy_actions, buy_outcome, create_actions, create_outcome, issued, sell_actions,
    sell_outcome, touches_mint_authority, Action,
};
use vstd::prelude::*;

verus! {

/// One market trade, as a caller requests it, in raw token units.
#[derive(Clone, Copy, Debug, PartialEq, Eq, Structural)]
pub enum Trade {
    Buy(u128),
    Sell(u128),
}

impl Trade {
    pub open spec fn amount(self) -> u128 {
        match self {
            Trade::Buy(a) => a,
            Trade::Sell(a) => a,
        }
    }
}

/// The listing after one trade: the new record when the trade succeeds, the
/// old one unchanged when it is refused.
pub open spec fn apply_trade(l: Listing, t: Trade) -> Listing {
    match t {
        Trade::Buy(a) => match buy_outcome(l, a) {
            Ok(next) => next,
            Err(_) => l,
        },
        Trade::Sell(a) => match sell_outcome(l, a) {
            Ok(next) => next,
            Err(_) => l,
        },
    }
}

/// The listing after trades requested one after the other.
pub open spec fn run_trades(l: Listing, trades: Seq<Trade>) -> Listing
    decreases trades.len(),
{
    if trades.len() == 0 {
        l
    } else {
        apply_trade(run_trades(l, trades.drop_last()), trades.last())
    }
}

/// Every trade moves a whole number of tokens.
pub open spec fn whole_token_trades(trades: Seq<Trade>) -> bool {
    forall|i: int| 0 <= i < trades.len() ==> (#[trigger] trades[i]).amount() % TOKEN_UNIT == 0
}

/// A successful buy changes the raw supply of the listing by exactly the
/// fraction of a whole token in its amount, and a successful sell by minus
/// that fraction: the vault counts whole tokens, the sold counter raw units.
pub proof fn lemma_trade_raw_supply(l: Listing, t: Trade)
    ensures
        t is Buy && buy_outcome(l, t.amount()) is Ok ==> apply_trade(l, t).raw_supply()
            == l.raw_supply() + t.amount() % TOKEN_UNIT,
        t is Sell && sell_outcome(l, t.amount()) is Ok ==> apply_trade(l, t).raw_supply()
            == l.raw_supply() - t.amount() % TOKEN_UNIT,
        buy_outcome(l, t.amount()) is Err && t is Buy ==> apply_trade(l, t) == l,
        sell_outcome(l, t.amount()) is Err && t is Sell ==> apply_trade(l, t) == l,
{
    let a = t.amount() as int;
    let u = TOKEN_UNIT as int;
    assert(a == (a / u) * u + a % u) by (nonlinear_arith)
        requires
            u > 0,
    ;
    assert((l.available_tokens - a / u) * u == l.available_tokens * u - (a / u) * u) by (nonlinear_arith);
    assert((l.available_tokens + a / u) * u == l.available_tokens * u + (a / u) * u) by (nonlinear_arith);
}

/// Trades of whole tokens, in any number and order and whether each one
/// succeeds or is refused, keep `available_tokens * TOKEN_UNIT + tokens_sold`
/// constant.
pub proof fn lemma_trades_conserve_supply(l: Listing, trades: Seq<Trade>)
    requires
        whole_token_trades(trades),
    ensures
        run_trades(l, trades).raw_supply() == l.raw_supply(),
    decreases trades.len(),
{
    if trades.len() > 0 {
        let init = trades.drop_last();
        assert forall|i: int| 0 <= i < init.len() implies (#[trigger] init[i]).amount() % TOKEN_UNIT
            == 0 by {
            assert(init[i] == trades[i]);
        }
        lemma_trades_conserve_supply(l, init);
        assert(trades.last() == trades[trades.len() - 1]);
        lemma_trade_raw_supply(run_trades(l, init), trades.last());
    }
}

/// From its creation on, through any trades of whole tokens, a listing's
/// tokens in the vault plus the tokens held by buyers, in raw units, equal
/// the amount minted into the vault at creation.
pub proof fn lemma_conservation(
    seed: u64,
    name: String,
    mint: [u8; 32],
    bump: u8,
    vault_bump: u8,
    mint_bump: u8,
    trades: Seq<Trade>,
)
    requires
        create_outcome(seed, name, mint, bump, vault_bump, mint_bump, TOKEN_DECIMALS) is Ok,
        whole_token_trades(trades),
    ensures
        ({
            let l = create_outcome(seed, name, mint, bump, vault_bump, mint_bump, TOKEN_DECIMALS)->Ok_0;
            run_trades(l, trades).raw_supply() == minted_amount(TOKEN_DECIMALS)
        }),
{
    let l = create_outcome(seed, name, mint, bump, vault_bump, mint_bump, TOKEN_DECIMALS)->Ok_0;
    lemma_trades_conserve_supply(l, trades);
    reveal_with_fuel(pow10, 7);
    assert(pow10(6) == 1_000_000);
}

/// Minting happens once: creation issues the whole supply in one mint and
/// then revokes the minting authority as its last movement, while buys,
/// sells and burns issue nothing and never touch the authority.
pub proof fn lemma_one_time_mint(decimals: u8, amount: u128, price: u64, burned: u64)
    requires
        minted_amount(decimals) <= u64::MAX,
    ensures
        issued(create_actions(decimals)) == minted_amount(decimals),
        create_actions(decimals).last() is RevokeMintAuthority,
        issued(buy_actions(amount, price)) == 0,
        issued(sell_actions(amount, price)) == 0,
        issued(burn_actions(burned)) == 0,
        !touches_mint_authority(buy_actions(amount, price)),
        !touches_mint_authority(sell_actions(amount, price)),
        !touches_mint_authority(burn_actions(burned)),
{
    lemma_issued_pair(create_actions(decimals));
    lemma_issued_pair(buy_actions(amount, price));
    lemma_issued_pair(sell_actions(amount, price));
    let b = burn_actions(burned);
    assert(b.drop_last() =~= Seq::<Action>::empty());
    reveal_with_fuel(issued, 2);
    let c = create_actions(decimals);
    assert(seq![c[0]].last() == c[0]);
    assert(seq![c[1]].last() == c[1]);
    assert(seq![c[0]].drop_last() =~= Seq::<Action>::empty());
    assert(seq![c[1]].drop_last() =~= Seq::<Action>::empty());
    let p = buy_actions(amount, price);
    assert(seq![p[0]].drop_last() =~= Seq::<Action>::empty());
    assert(seq![p[1]].drop_last() =~= Seq::<Action>::empty());
    assert(seq![p[0]].last() == p[0]);
    assert(seq![p[1]].last() == p[1]);
    let q = sell_actions(amount, price);
    assert(seq![q[0]].drop_last() =~= Seq::<Action>::empty());
    assert(seq![q[1]].drop_last() =~= Seq::<Action>::empty());
    assert(seq![q[0]].last() == q[0]);
    assert(seq![q[1]].last() == q[1]);
}

proof fn lemma_issued_pair(s: Seq<Action>)
    requires
        s.len() == 2,
    ensures
        issued(s) == issued(seq![s[0]]) + issued(seq![s[1]]),
{
    reveal_with_fuel(issued, 3);
    assert(s.drop_last() =~= seq![s[0]]);
    assert(seq![s[0]].drop_last() =~= Seq::<Action>::empty());
    assert(seq![s[1]].drop_last() =~= Seq::<Action>::empty());
    assert(s.last() == s[1]);
    assert(seq![s[0]].last() == s[0]);
    assert(seq![s[1]].last() == s[1]);
}

} // verus!
