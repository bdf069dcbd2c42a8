//! The price multiplier of a tradeable item and the prices derived from it.
//!
//! Two rules move a multiplier. A trade shifts it by an amount that grows
//! with the traded quantity and with the glut or scarcity of the last hour,
//! pulls it slightly toward 1 and keeps it between 0.1 and 4. The periodic
//! decay moves it a tenth of the way toward 1 and caps it at 3. After either,
//! the sell price is the base price times the multiplier and the buy price
//! 1.6 times that, each rounded to the nearest unit.
//!
//! Multipliers are counted in millionths. Each rule is an exact rational
//! formula followed by a single rounding toward zero.

use crate::fixed::{clamp, div_round, div_trunc, fits_i64, round_div, trunc_div, SCALE};
use crate::text::same_text;
use vstd::prelude::*;

verus! {

/// The lowest multiplier that a trade leaves: 0.1.
pub const MIN_MULTIPLIER: i64 = 100_000;

/// The highest multiplier that a trade leaves: 4.
pub const MAX_MULTIPLIER: i64 = 4_000_000;

/// The highest multiplier that the periodic decay leaves: 3.
pub const DECAY_CEILING: i64 = 3_000_000;

/// The direction of a trade, seen from the player.
#[derive(Clone, Copy, Debug, PartialEq, Eq, Structural)]
pub enum TradeKind {
    Sell,
    Buy,
}

/// The kind of trade that a transaction type names: `SELL`, `BUY`, and
/// nothing for any other text.
pub open spec fn trade_kind_of(text: Seq<char>) -> Option<TradeKind> {
    if text == "SELL"@ {
        Some(TradeKind::Sell)
    } else if text == "BUY"@ {
        Some(TradeKind::Buy)
    } else {
        None
    }
}

impl TradeKind {
    /// The kind's name in the trade log.
    pub open spec fn name(self) -> Seq<char> {
        match self {
            TradeKind::Sell => "SELL"@,
            TradeKind::Buy => "BUY"@,
        }
    }

    /// The kind's name in the trade log.
    pub fn as_str(&self) -> (s: &'static str)
        ensures
            s@ == self.name(),
    {
        match self {
            TradeKind::Sell => "SELL",
            TradeKind::Buy => "BUY",
        }
    }

    /// The kind of trade that a transaction type names.
    pub fn parse(text: &str) -> (kind: Option<TradeKind>)
        ensures
            kind == trade_kind_of(text@),
    {
        if same_text(text, "SELL") {
            Some(TradeKind::Sell)
        } else if same_text(text, "BUY") {
            Some(TradeKind::Buy)
        } else {
            None
        }
    }
}

/// The ratio of supply to demand over the window, as numerator and positive
/// denominator: sales over buys where anything was bought, else 2 where
/// anything was sold, else 1.
pub open spec fn supply_demand_ratio(sales: int, buys: int) -> (int, int) {
    if buys > 0 {
        (sales, buys)
    } else if sales > 0 {
        (2, 1)
    } else {
        (1, 1)
    }
}

/// The larger of a ratio and one tenth.
pub open spec fn at_least_a_tenth(ratio: (int, int)) -> (int, int) {
    if 10 * ratio.0 >= ratio.1 {
        ratio
    } else {
        (1, 10)
    }
}

/// The shift that a trade gives the multiplier, in millionths. With `v` the
/// quantity over the lot size of 64 and `r` the supply/demand ratio, a sale
/// shifts by `-0.02 * v * (1 + r / 2)` and a purchase by
/// `0.02 * v * (1 + 1 / (2 * max(r, 0.1)))`; anything else shifts by nothing.
/// Each is written here as one fraction and rounded toward zero.
pub open spec fn trade_delta(kind: Option<TradeKind>, quantity: int, sales: int, buys: int) -> int {
    match kind {
        None => 0,
        Some(TradeKind::Sell) => {
            let (n, d) = supply_demand_ratio(sales, buys);
            trunc_div(-(SCALE * quantity * (2 * d + n)), 6400 * d)
        },
        Some(TradeKind::Buy) => {
            let (n, d) = at_least_a_tenth(supply_demand_ratio(sales, buys));
            trunc_div(SCALE * quantity * (2 * n + d), 6400 * n)
        },
    }
}

/// The pull toward 1: a thousandth of the distance from the multiplier to 1,
/// rounded toward zero.
pub open spec fn baseline_pull(multiplier: int) -> int {
    trunc_div(SCALE - multiplier, 1000)
}

/// The multiplier after a trade: shifted, pulled toward 1, and kept between
/// 0.1 and 4.
pub open spec fn traded_multiplier(
    multiplier: int,
    kind: Option<TradeKind>,
    quantity: int,
    sales: int,
    buys: int,
) -> int {
    let shifted = multiplier + trade_delta(kind, quantity, sales, buys);
    clamp(shifted + baseline_pull(shifted), MIN_MULTIPLIER as int, MAX_MULTIPLIER as int)
}

/// The multiplier after one periodic decay: a tenth of the way toward 1,
/// rounded toward zero, and at most 3.
pub open spec fn decayed_multiplier(multiplier: int) -> int {
    let moved = multiplier + trunc_div(SCALE - multiplier, 10);
    if moved > DECAY_CEILING {
        DECAY_CEILING as int
    } else {
        moved
    }
}

/// The sell price at a multiplier: base price times multiplier, rounded to
/// the nearest unit.
pub open spec fn sell_price(base_price: int, multiplier: int) -> int {
    round_div(base_price * multiplier, SCALE as int)
}

/// The buy price at a multiplier: 1.6 times base price times multiplier,
/// rounded to the nearest unit.
pub open spec fn buy_price(base_price: int, multiplier: int) -> int {
    round_div(base_price * multiplier * 8, 5 * SCALE)
}

/// The part of a market item that pricing reads and writes: the base price,
/// the multiplier in millionths, and the two prices in force.
#[derive(Clone, Copy, Debug, PartialEq, Eq, Structural)]
pub struct ItemPrice {
    pub base_price: i64,
    pub price_multiplier: i64,
    pub current_sell_price: i64,
    pub current_buy_price: i64,
}

impl ItemPrice {
    /// Both prices are derived from the base price and the multiplier.
    pub open spec fn consistent(self) -> bool {
        &&& self.current_sell_price == sell_price(
            self.base_price as int,
            self.price_multiplier as int,
        )
        &&& self.current_buy_price == buy_price(
            self.base_price as int,
            self.price_multiplier as int,
        )
    }

    /// The prices are consistent and the multiplier lies between 0.1 and 4.
    pub open spec fn valid(self) -> bool {
        self.consistent() && MIN_MULTIPLIER <= self.price_multiplier <= MAX_MULTIPLIER
    }
}

/// The prices of a base price at a multiplier; there are none where a
/// derived price cannot be held in an `i64`.
pub open spec fn quoted(base_price: int, multiplier: int) -> Option<ItemPrice> {
    if fits_i64(base_price) && fits_i64(multiplier) && fits_i64(
        sell_price(base_price, multiplier),
    ) && fits_i64(buy_price(base_price, multiplier)) {
        Some(
            ItemPrice {
                base_price: base_price as i64,
                price_multiplier: multiplier as i64,
                current_sell_price: sell_price(base_price, multiplier) as i64,
                current_buy_price: buy_price(base_price, multiplier) as i64,
            },
        )
    } else {
        None
    }
}

/// The prices after a trade of `quantity` units of the given kind, with the
/// volumes sold and bought over the trailing window: the multiplier moves as
/// a trade moves it and both prices are derived anew.
pub open spec fn repriced_after_trade(
    price: ItemPrice,
    kind: Option<TradeKind>,
    quantity: int,
    sales: int,
    buys: int,
) -> Option<ItemPrice> {
    quoted(
        price.base_price as int,
        traded_multiplier(price.price_multiplier as int, kind, quantity, sales, buys),
    )
}

/// The prices after one periodic decay.
pub open spec fn repriced_after_decay(price: ItemPrice) -> Option<ItemPrice> {
    quoted(price.base_price as int, decayed_multiplier(price.price_multiplier as int))
}

proof fn lemma_product_bound(x: int, y: int, xb: int, yb: int)
    by (nonlinear_arith)
    requires
        -xb <= x <= xb,
        -yb <= y <= yb,
    ensures
        -(xb * yb) <= x * y <= xb * yb,
{
}

/// The multiplier after a trade of `quantity` units, given the volumes sold
/// and bought over the trailing window.
pub fn trade_multiplier(
    multiplier: i64,
    kind: Option<TradeKind>,
    quantity: i32,
    sales_volume: i64,
    buy_volume: i64,
) -> (updated: i64)
    ensures
        updated == traded_multiplier(
            multiplier as int,
            kind,
            quantity as int,
            sales_volume as int,
            buy_volume as int,
        ),
        MIN_MULTIPLIER <= updated <= MAX_MULTIPLIER,
{
    let (n, d): (i128, i128) = if buy_volume > 0 {
        (sales_volume as i128, buy_volume as i128)
    } else if sales_volume > 0 {
        (2, 1)
    } else {
        (1, 1)
    };
    assert((n as int, d as int) == supply_demand_ratio(sales_volume as int, buy_volume as int));
    let scaled: i128 = 1_000_000 * (quantity as i128);
    assert(scaled == SCALE * quantity) by (nonlinear_arith)
        requires
            scaled == 1_000_000 * quantity,
            SCALE == 1_000_000,
    ;
    let delta: i128 = match kind {
        None => 0,
        Some(TradeKind::Sell) => {
            let weight: i128 = 2 * d + n;
            proof {
                lemma_product_bound(
                    scaled as int,
                    weight as int,
                    2_147_483_648_000_000int,
                    27_670_116_110_564_327_424int,
                );
            }
            div_trunc(-(scaled * weight), 6400 * d)
        },
        Some(TradeKind::Buy) => {
            let (floored_n, floored_d): (i128, i128) = if 10 * n >= d {
                (n, d)
            } else {
                (1, 10)
            };
            assert((floored_n as int, floored_d as int) == at_least_a_tenth((n as int, d as int)));
            let weight: i128 = 2 * floored_n + floored_d;
            proof {
                lemma_product_bound(
                    scaled as int,
                    weight as int,
                    2_147_483_648_000_000int,
                    27_670_116_110_564_327_424int,
                );
            }
            div_trunc(scaled * weight, 6400 * floored_n)
        },
    };
    let shifted: i128 = multiplier as i128 + delta;
    let pulled: i128 = shifted + div_trunc(SCALE as i128 - shifted, 1000);
    if pulled < MIN_MULTIPLIER as i128 {
        MIN_MULTIPLIER
    } else if pulled > MAX_MULTIPLIER as i128 {
        MAX_MULTIPLIER
    } else {
        pulled as i64
    }
}

/// The multiplier after one periodic decay.
pub fn decay_multiplier(multiplier: i64) -> (updated: i64)
    ensures
        updated == decayed_multiplier(multiplier as int),
        updated <= DECAY_CEILING,
{
    let moved: i128 = multiplier as i128 + div_trunc(SCALE as i128 - multiplier as i128, 10);
    if moved > DECAY_CEILING as i128 {
        DECAY_CEILING
    } else {
        moved as i64
    }
}

/// The prices of a base price at a multiplier, or nothing where a derived
/// price cannot be held.
pub fn quote(base_price: i64, multiplier: i64) -> (q: Option<ItemPrice>)
    ensures
        q == quoted(base_price as int, multiplier as int),
        q matches Some(p) ==> p.base_price == base_price && p.price_multiplier == multiplier
            && p.consistent(),
{
    proof {
        lemma_product_bound(
            base_price as int,
            multiplier as int,
            0x8000_0000_0000_0000,
            0x8000_0000_0000_0000,
        );
    }
    let product: i128 = (base_price as i128) * (multiplier as i128);
    let sell: i128 = div_round(product, SCALE as i128);
    if sell < i64::MIN as i128 || sell > i64::MAX as i128 {
        return None;
    }
    let buy: i128 = div_round(product * 8, 5 * (SCALE as i128));
    if buy < i64::MIN as i128 || buy > i64::MAX as i128 {
        return None;
    }
    Some(
        ItemPrice {
            base_price,
            price_multiplier: multiplier,
            current_sell_price: sell as i64,
            current_buy_price: buy as i64,
        },
    )
}

/// Reprices an item after a trade. `transaction_type` is `SELL` or `BUY`;
/// any other text shifts the multiplier by nothing. The result has the
/// multiplier between 0.1 and 4 and both prices derived from it; there is
/// none where a derived price cannot be held.
pub fn update_market_price(
    price: &ItemPrice,
    transaction_type: &str,
    quantity: i32,
    sales_volume: i64,
    buy_volume: i64,
) -> (updated: Option<ItemPrice>)
    ensures
        updated == repriced_after_trade(
            *price,
            trade_kind_of(transaction_type@),
            quantity as int,
            sales_volume as int,
            buy_volume as int,
        ),
        updated matches Some(p) ==> p.valid() && p.base_price == price.base_price,
{
    let kind = TradeKind::parse(transaction_type);
    let multiplier = trade_multiplier(
        price.price_multiplier,
        kind,
        quantity,
        sales_volume,
        buy_volume,
    );
    quote(price.base_price, multiplier)
}

/// Reprices an item by one periodic decay. The result has the multiplier at
/// most 3 and both prices derived from it; there is none where a derived
/// price cannot be held.
pub fn regenerate_price(price: &ItemPrice) -> (updated: Option<ItemPrice>)
    ensures
        updated == repriced_after_decay(*price),
        updated matches Some(p) ==> p.consistent() && p.price_multiplier <= DECAY_CEILING
            && p.base_price == price.base_price,
{
    quote(price.base_price, decay_multiplier(price.price_multiplier))
}

/// After a trade the multiplier lies between 0.1 and 4, whatever it was
/// before and whatever was traded.
pub proof fn lemma_traded_multiplier_in_range(
    multiplier: int,
    kind: Option<TradeKind>,
    quantity: int,
    sales: int,
    buys: int,
)
    ensures
        MIN_MULTIPLIER <= traded_multiplier(multiplier, kind, quantity, sales, buys)
            <= MAX_MULTIPLIER,
{
}

/// After a decay the multiplier is at most 3, whatever it was before; one
/// that was at least 0.1 stays at least 0.1, and the decay never moves a
/// multiplier away from 1.
pub proof fn lemma_decayed_multiplier_in_range(multiplier: int)
    ensures
        decayed_multiplier(multiplier) <= DECAY_CEILING,
        multiplier >= MIN_MULTIPLIER ==> decayed_multiplier(multiplier) >= MIN_MULTIPLIER,
        multiplier <= SCALE ==> multiplier <= decayed_multiplier(multiplier) <= SCALE,
        multiplier >= SCALE ==> SCALE <= decayed_multiplier(multiplier) <= multiplier,
{
}

/// Every repricing after a trade leaves the multiplier between 0.1 and 4 and
/// derives the sell price and the buy price from that one multiplier.
pub proof fn lemma_trade_repricing_is_valid(
    price: ItemPrice,
    kind: Option<TradeKind>,
    quantity: int,
    sales: int,
    buys: int,
)
    ensures
        repriced_after_trade(price, kind, quantity, sales, buys) matches Some(p) ==> {
            &&& MIN_MULTIPLIER <= p.price_multiplier <= MAX_MULTIPLIER
            &&& p.current_sell_price == sell_price(
                price.base_price as int,
                p.price_multiplier as int,
            )
            &&& p.current_buy_price == buy_price(
                price.base_price as int,
                p.price_multiplier as int,
            )
            &&& p.base_price == price.base_price
        },
{
}

/// Every repricing by decay leaves the multiplier at most 3, and at least
/// 0.1 where it was so before, and derives the sell price and the buy price
/// from that one multiplier: a valid price stays valid.
pub proof fn lemma_decay_repricing_is_valid(price: ItemPrice)
    ensures
        repriced_after_decay(price) matches Some(p) ==> {
            &&& p.price_multiplier <= DECAY_CEILING
            &&& price.price_multiplier >= MIN_MULTIPLIER ==> p.price_multiplier >= MIN_MULTIPLIER
            &&& price.valid() ==> p.valid()
            &&& p.current_sell_price == sell_price(
                price.base_price as int,
                p.price_multiplier as int,
            )
            &&& p.current_buy_price == buy_price(
                price.base_price as int,
                p.price_multiplier as int,
            )
            &&& p.base_price == price.base_price
        },
{
}

/// A sale never raises the multiplier by its shift, as long as nothing
/// negative stands in the window: the shift is zero or downward.
pub proof fn lemma_sale_shifts_downward(quantity: int, sales: int, buys: int)
    requires
        quantity >= 0,
        sales >= 0,
        buys >= 0,
    ensures
        trade_delta(Some(TradeKind::Sell), quantity, sales, buys) <= 0,
{
    let (n, d) = supply_demand_ratio(sales, buys);
    assert(SCALE * quantity * (2 * d + n) >= 0) by (nonlinear_arith)
        requires
            quantity >= 0,
            d > 0,
            n >= 0,
    ;
    assert(6400 * d > 0);
    let num = SCALE * quantity * (2 * d + n);
    assert(num / (6400 * d) >= 0) by (nonlinear_arith)
        requires
            num >= 0,
            6400 * d > 0,
    ;
}

/// A purchase never lowers the multiplier, as long as nothing negative
/// stands in the window: the shift is zero or upward.
pub proof fn lemma_purchase_shifts_upward(quantity: int, sales: int, buys: int)
    requires
        quantity >= 0,
        sales >= 0,
        buys >= 0,
    ensures
        trade_delta(Some(TradeKind::Buy), quantity, sales, buys) >= 0,
{
    let (n, d) = at_least_a_tenth(supply_demand_ratio(sales, buys));
    assert(n > 0 && d > 0);
    assert(SCALE * quantity * (2 * n + d) >= 0) by (nonlinear_arith)
        requires
            quantity >= 0,
            d > 0,
            n > 0,
    ;
    let num = SCALE * quantity * (2 * n + d);
    assert(num / (6400 * n) >= 0) by (nonlinear_arith)
        requires
            num >= 0,
            6400 * n > 0,
    ;
}

} // verus!
