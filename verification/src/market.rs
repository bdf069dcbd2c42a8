//! The commodity market: items, the trade log, and what a sale changes.
//!
//! A sale credits the seller's wallet with the net proceeds, appends one
//! record to the trade log and raises the item's lifetime counter, all three
//! or none, and none where the seller has no account. The volumes that drive the price are sums over the records of the
//! trailing hour.

use crate::account::Account;
use crate::config::{ConfigManager, MarketFees};
use crate::fixed::fits_i64;
use crate::pricing::{ItemPrice, TradeKind};
use crate::text::same_text;
use vstd::prelude::*;
use vstd::string::*;

verus! {

/// The length of the trailing window over which traded volume is summed, in
/// seconds.
pub const TRADE_WINDOW_SECONDS: i64 = 3_600;

/// A request to sell `quantity` units of the item with this key.
#[derive(Clone, Debug)]
pub struct SellItemRequest {
    pub item_key: String,
    pub quantity: i32,
}

/// The reply to a sell request.
#[derive(Clone, Debug)]
pub struct SellItemResponse {
    pub success: bool,
    pub message: String,
    pub gross_earned: i64,
    pub transaction_fee: i64,
    pub vat: i64,
    pub net_earned: i64,
    pub price_per_unit: i64,
    pub new_wallet: i64,
    pub new_bank: i64,
    pub new_item_price: i64,
}

/// A tradeable item as storage holds it; the multiplier is in millionths.
#[derive(Clone, Debug)]
pub struct MarketItem {
    pub id: i32,
    pub item_key: String,
    pub item_name: String,
    pub base_price: i64,
    pub current_sell_price: i64,
    pub current_buy_price: i64,
    pub total_sold: i64,
    pub total_bought: i64,
    pub price_multiplier: i64,
}

/// The part of an item that a price list shows.
#[derive(Clone, Debug)]
pub struct LightMarketItem {
    pub item_key: String,
    pub current_sell_price: i64,
    pub price_multiplier: i64,
}

/// One entry of the trade log. Entries are written once and never changed.
#[derive(Clone, Debug)]
pub struct TradeRecord {
    pub player_uuid: String,
    pub item_key: String,
    pub kind: TradeKind,
    pub quantity: i32,
    pub price_per_unit: i64,
    pub total_amount: i64,
    pub price_multiplier: i64,
    pub timestamp: i64,
}

impl MarketItem {
    /// The item's pricing state.
    pub open spec fn price_view(self) -> ItemPrice {
        ItemPrice {
            base_price: self.base_price,
            price_multiplier: self.price_multiplier,
            current_sell_price: self.current_sell_price,
            current_buy_price: self.current_buy_price,
        }
    }

    /// The multiplier lies between 0.1 and 4 and both prices are derived
    /// from it.
    pub open spec fn valid(self) -> bool {
        self.price_view().valid()
    }

    /// The item with the multiplier and the prices of `price`, and all else
    /// as it was.
    pub open spec fn priced(self, price: ItemPrice) -> MarketItem {
        MarketItem {
            price_multiplier: price.price_multiplier,
            current_sell_price: price.current_sell_price,
            current_buy_price: price.current_buy_price,
            ..self
        }
    }

    /// The item with `quantity` more units sold, and all else as it was.
    pub open spec fn sold(self, quantity: int) -> MarketItem {
        MarketItem { total_sold: (self.total_sold + quantity) as i64, ..self }
    }

    /// The item's pricing state.
    pub fn price(&self) -> (price: ItemPrice)
        ensures
            price == self.price_view(),
    {
        ItemPrice {
            base_price: self.base_price,
            price_multiplier: self.price_multiplier,
            current_sell_price: self.current_sell_price,
            current_buy_price: self.current_buy_price,
        }
    }

    /// Takes over the multiplier and the prices of `price`.
    pub fn set_price(&mut self, price: &ItemPrice)
        ensures
            *final(self) == old(self).priced(*price),
    {
        self.price_multiplier = price.price_multiplier;
        self.current_sell_price = price.current_sell_price;
        self.current_buy_price = price.current_buy_price;
    }

    /// The item's entry in a price list.
    pub fn light(&self) -> (entry: LightMarketItem)
        ensures
            entry.item_key@ == self.item_key@,
            entry.current_sell_price == self.current_sell_price,
            entry.price_multiplier == self.price_multiplier,
    {
        LightMarketItem {
            item_key: String::from_str(self.item_key.as_str()),
            current_sell_price: self.current_sell_price,
            price_multiplier: self.price_multiplier,
        }
    }
}

/// Whether a record counts toward the volume of an item and kind at `now`:
/// it is of that item and kind and no older than the window.
pub open spec fn in_window(record: TradeRecord, item_key: Seq<char>, kind: TradeKind, now: int)
    -> bool {
    &&& record.item_key@ == item_key
    &&& record.kind == kind
    &&& record.timestamp >= now - TRADE_WINDOW_SECONDS
}

/// The volume of an item and kind over the trailing window: the sum of the
/// quantities of the records that count.
pub open spec fn window_volume(
    trades: Seq<TradeRecord>,
    item_key: Seq<char>,
    kind: TradeKind,
    now: int,
) -> int
    decreases trades.len(),
{
    if trades.len() == 0 {
        0
    } else {
        window_volume(trades.drop_last(), item_key, kind, now) + if in_window(
            trades.last(),
            item_key,
            kind,
            now,
        ) {
            trades.last().quantity as int
        } else {
            0
        }
    }
}

/// The volume of an item and kind over the window that ends at `now`, or
/// nothing where the sum cannot be held in an `i64`.
pub fn recent_volume(trades: &Vec<TradeRecord>, item_key: &str, kind: TradeKind, now: i64) -> (volume:
    Option<i64>)
    ensures
        volume is Some <==> fits_i64(window_volume(trades@, item_key@, kind, now as int)),
        volume matches Some(v) ==> v == window_volume(trades@, item_key@, kind, now as int),
{
    let mut sum: i128 = 0;
    let mut i: usize = 0;
    while i < trades.len()
        invariant
            i <= trades.len(),
            sum == window_volume(trades@.take(i as int), item_key@, kind, now as int),
            -0x8000_0000 * i <= sum <= 0x8000_0000 * i,
        decreases trades.len() - i,
    {
        proof {
            assert(trades@.take(i + 1).drop_last() =~= trades@.take(i as int));
            assert(trades@.take(i + 1).last() == trades@[i as int]);
        }
        let record = &trades[i];
        if same_text(record.item_key.as_str(), item_key) && record.kind == kind
            && record.timestamp as i128 >= now as i128 - TRADE_WINDOW_SECONDS as i128 {
            sum = sum + record.quantity as i128;
        }
        i += 1;
    }
    proof {
        assert(trades@.take(trades.len() as int) =~= trades@);
    }
    if sum < i64::MIN as i128 || sum > i64::MAX as i128 {
        None
    } else {
        Some(sum as i64)
    }
}

/// What a sale asks of storage: the quantity, the unit price and the
/// multiplier at the time of the sale, and the breakdown of the proceeds.
#[derive(Clone, Copy, Debug, PartialEq, Eq, Structural)]
pub struct SalePlan {
    pub quantity: i32,
    pub price_per_unit: i64,
    pub price_multiplier: i64,
    pub fees: MarketFees,
}

/// The plan of a sale of `quantity` units at the item's sell price: the
/// gross is price times quantity and the fees are those of the snapshot.
/// There is no plan where the quantity is not positive, where the price is
/// negative, or where the gross cannot be held in an `i64`.
pub open spec fn sale_planned(config: ConfigManager, price: ItemPrice, quantity: int) -> Option<
    SalePlan,
> {
    let gross = price.current_sell_price * quantity;
    if 0 < quantity <= i32::MAX && price.current_sell_price >= 0 && fits_i64(gross) {
        Some(
            SalePlan {
                quantity: quantity as i32,
                price_per_unit: price.current_sell_price,
                price_multiplier: price.price_multiplier,
                fees: MarketFees {
                    gross_amount: gross as i64,
                    transaction_fee: config.market_fees(gross).0 as i64,
                    vat: config.market_fees(gross).1 as i64,
                    net_amount: config.market_fees(gross).2 as i64,
                },
            },
        )
    } else {
        None
    }
}

/// The plan of a sale of `quantity` units at the item's sell price.
pub fn plan_sale(config: &ConfigManager, price: &ItemPrice, quantity: i32) -> (plan: Option<
    SalePlan,
>)
    ensures
        plan == sale_planned(*config, *price, quantity as int),
        plan matches Some(p) ==> 0 <= p.fees.net_amount <= p.fees.gross_amount,
{
    if quantity <= 0 || price.current_sell_price < 0 {
        return None;
    }
    assert(0 <= price.current_sell_price * quantity <= 0x8000_0000_0000_0000 * 0x8000_0000)
        by (nonlinear_arith)
        requires
            0 <= price.current_sell_price < 0x8000_0000_0000_0000,
            0 < quantity < 0x8000_0000,
    ;
    let gross: i128 = (price.current_sell_price as i128) * (quantity as i128);
    if gross > i64::MAX as i128 {
        return None;
    }
    let fees = config.calculate_market_fees(gross as i64);
    proof {
        crate::config::lemma_market_fees_split(*config, gross as int);
    }
    Some(
        SalePlan {
            quantity,
            price_per_unit: price.current_sell_price,
            price_multiplier: price.price_multiplier,
            fees,
        },
    )
}

/// Whether the three writes of a sale can all be stored: the credited wallet
/// and the raised counter both stay within range.
pub open spec fn can_settle(account: Account, item: MarketItem, plan: SalePlan) -> bool {
    fits_i64(account.wallet + plan.fees.net_amount) && fits_i64(item.total_sold + plan.quantity)
}

/// The account with `net` more in the wallet.
pub open spec fn credited(account: Account, net: int) -> Account {
    Account { wallet: (account.wallet + net) as i64, ..account }
}

/// Whether `record` is the log entry of a sale: the seller, the item, the
/// kind `SELL`, the quantity, the unit price, the gross amount, the
/// multiplier at the time of the sale, and the time.
pub open spec fn records_sale(
    record: TradeRecord,
    player_uuid: Seq<char>,
    item_key: Seq<char>,
    plan: SalePlan,
    now: i64,
) -> bool {
    &&& record.player_uuid@ == player_uuid
    &&& record.item_key@ == item_key
    &&& record.kind == TradeKind::Sell
    &&& record.quantity == plan.quantity
    &&& record.price_per_unit == plan.price_per_unit
    &&& record.total_amount == plan.fees.gross_amount
    &&& record.price_multiplier == plan.price_multiplier
    &&& record.timestamp == now
}

/// How the commit of a sale ended.
#[derive(Clone, Copy, Debug, PartialEq, Eq, Structural)]
pub enum Settlement {
    /// All three writes were made.
    Committed,
    /// The seller has no account: nothing was written.
    AccountMissing,
    /// A new value cannot be stored: nothing was written.
    OutOfRange,
}

/// How the commit of a sale ends for an account, or for none.
pub open spec fn settlement(account: Option<Account>, item: MarketItem, plan: SalePlan)
    -> Settlement {
    match account {
        None => Settlement::AccountMissing,
        Some(holder) => if can_settle(holder, item, plan) {
            Settlement::Committed
        } else {
            Settlement::OutOfRange
        },
    }
}

/// Commits a sale, all of it or none of it: the wallet is credited with the
/// net proceeds, one record is appended to the trade log, and the item's
/// lifetime counter is raised by the quantity. Where the seller has no
/// account, or a new value cannot be stored, nothing is written.
pub fn settle_sale(
    account: &mut Option<Account>,
    item: &mut MarketItem,
    trades: &mut Vec<TradeRecord>,
    plan: &SalePlan,
    player_uuid: &str,
    now: i64,
) -> (done: Settlement)
    ensures
        done == settlement(*old(account), *old(item), *plan),
        done == Settlement::Committed ==> {
            &&& *final(account) == Some(
                credited(old(account).unwrap(), plan.fees.net_amount as int),
            )
            &&& *final(item) == old(item).sold(plan.quantity as int)
            &&& final(trades)@.len() == old(trades)@.len() + 1
            &&& final(trades)@.drop_last() == old(trades)@
            &&& records_sale(final(trades)@.last(), player_uuid@, old(item).item_key@, *plan, now)
        },
        done != Settlement::Committed ==> {
            &&& *final(account) == *old(account)
            &&& *final(item) == *old(item)
            &&& final(trades)@ == old(trades)@
        },
{
    let holder = match *account {
        Some(holder) => holder,
        None => {
            return Settlement::AccountMissing;
        },
    };
    let wallet = holder.wallet.checked_add(plan.fees.net_amount);
    let total_sold = item.total_sold.checked_add(plan.quantity as i64);
    match (wallet, total_sold) {
        (Some(wallet), Some(total_sold)) => {
            let record = TradeRecord {
                player_uuid: String::from_str(player_uuid),
                item_key: String::from_str(item.item_key.as_str()),
                kind: TradeKind::Sell,
                quantity: plan.quantity,
                price_per_unit: plan.price_per_unit,
                total_amount: plan.fees.gross_amount,
                price_multiplier: plan.price_multiplier,
                timestamp: now,
            };
            *account = Some(
                Account { wallet, bank: holder.bank, is_bank_open: holder.is_bank_open },
            );
            item.total_sold = total_sold;
            trades.push(record);
            proof {
                assert(trades@.drop_last() =~= old(trades)@);
            }
            Settlement::Committed
        },
        _ => Settlement::OutOfRange,
    }
}

/// A sale that commits changes the wallet by exactly the net proceeds, which
/// are never negative, and leaves the bank balance alone: a valid account
/// stays valid.
pub proof fn lemma_sale_keeps_account_valid(
    config: ConfigManager,
    account: Account,
    price: ItemPrice,
    quantity: int,
)
    requires
        config.valid(),
        account.valid(),
        sale_planned(config, price, quantity) is Some,
    ensures
        ({
            let plan = sale_planned(config, price, quantity).unwrap();
            &&& 0 <= plan.fees.net_amount <= plan.fees.gross_amount
            &&& plan.fees.transaction_fee + plan.fees.vat + plan.fees.net_amount
                == plan.fees.gross_amount
            &&& fits_i64(account.wallet + plan.fees.net_amount) ==> credited(
                account,
                plan.fees.net_amount as int,
            ).valid()
            &&& credited(account, plan.fees.net_amount as int).bank == account.bank
        }),
{
    crate::config::lemma_market_fees_split(config, price.current_sell_price * quantity);
}

/// A sale of no units, or of fewer, has no plan: nothing can be asked of
/// storage for it.
pub proof fn lemma_empty_sale_has_no_plan(config: ConfigManager, price: ItemPrice, quantity: int)
    requires
        quantity <= 0,
    ensures
        sale_planned(config, price, quantity) is None,
{
}

/// The volume of a window grows by exactly the quantity of a record that is
/// appended to the log and counts, and not at all by one that does not.
pub proof fn lemma_volume_of_appended_record(
    trades: Seq<TradeRecord>,
    record: TradeRecord,
    item_key: Seq<char>,
    kind: TradeKind,
    now: int,
)
    ensures
        window_volume(trades.push(record), item_key, kind, now) == window_volume(
            trades,
            item_key,
            kind,
            now,
        ) + if in_window(record, item_key, kind, now) {
            record.quantity as int
        } else {
            0
        },
{
    assert(trades.push(record).drop_last() =~= trades);
    assert(trades.push(record).last() == record);
}

} // verus!
