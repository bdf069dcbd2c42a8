//! The sale of items to the market.
//!
//! A sale alternates decisions with storage work. The decisions are the
//! function `sell_item`, from the state of a sale and what storage just
//! answered to the next state and what to ask of storage next. The caller
//! performs each action and hands back the event. `sell` does so against an
//! account, an item and a trade log in memory, and its contract says what a
//! sale comes to as a whole.
//!
//! The volumes that drive the new price are read before the sale is
//! committed, so the sale itself does not count toward them. The sale is
//! committed before the price is written, and a price that cannot be
//! computed or written leaves the committed sale in place: the reply then
//! names the price at which the units were sold. A seller without an account
//! is found out by the commit, which then writes nothing, and the sale ends
//! as not found.

use crate::account::Account;
use crate::config::ConfigManager;
use crate::fixed::fits_i64;
use crate::market::{
    can_settle, credited, plan_sale, recent_volume, records_sale, sale_planned, settle_sale,
    window_volume, MarketItem, SalePlan, SellItemRequest, SellItemResponse, Settlement,
    TradeRecord,
};
use crate::pricing::{repriced_after_trade, update_market_price, ItemPrice, TradeKind};
use crate::status::Failure;
use crate::text::{integer_text, push_integer};
use vstd::prelude::*;
use vstd::string::*;

verus! {

/// How a sale ended.
#[derive(Clone, Copy, Debug, PartialEq, Eq, Structural)]
pub enum SaleOutcome {
    /// The sale was committed; the balances are those read afterwards, and
    /// the item price is the new sell price, or the price of the sale where
    /// no new price was written.
    Completed { plan: SalePlan, new_wallet: i64, new_bank: i64, new_item_price: i64 },
    /// The quantity is not positive.
    InvalidQuantity { quantity: i32 },
    /// The market has no item with this key.
    ItemUnavailable,
    /// The seller has no account: nothing was written.
    AccountNotFound,
    /// Storage failed, or an amount left the range that can be stored.
    Failed,
}

impl SaleOutcome {
    /// Whether the sale was committed.
    pub open spec fn succeeded(self) -> bool {
        self is Completed
    }

    /// The text that tells the player how the sale ended.
    pub open spec fn message_text(self, item_key: Seq<char>) -> Seq<char> {
        match self {
            SaleOutcome::Completed { plan, .. } => "Successfully sold "@ + item_key + " x"@
                + integer_text(plan.quantity as int),
            SaleOutcome::InvalidQuantity { .. } => "Quantity must be greater than zero"@,
            SaleOutcome::ItemUnavailable => "Item not available in market"@,
            SaleOutcome::AccountNotFound => "User not found"@,
            SaleOutcome::Failed => "Internal error"@,
        }
    }

    /// The text that tells the player how the sale ended.
    pub fn message(&self, item_key: &str) -> (text: String)
        ensures
            text@ == self.message_text(item_key@),
    {
        match self {
            SaleOutcome::Completed { plan, .. } => {
                let mut text = String::from_str("Successfully sold ");
                text.append(item_key);
                text.append(" x");
                push_integer(&mut text, plan.quantity as i64);
                text
            },
            SaleOutcome::InvalidQuantity { .. } => String::from_str(
                "Quantity must be greater than zero",
            ),
            SaleOutcome::ItemUnavailable => String::from_str("Item not available in market"),
            SaleOutcome::AccountNotFound => String::from_str("User not found"),
            SaleOutcome::Failed => String::from_str("Internal error"),
        }
    }

    /// The failure that the outcome is reported as, where it is one: a
    /// missing account as `NotFound`, a failed sale as `Internal`.
    pub open spec fn failure(self) -> Option<Failure> {
        match self {
            SaleOutcome::AccountNotFound => Some(Failure::NotFound),
            SaleOutcome::Failed => Some(Failure::Internal),
            _ => None,
        }
    }

    /// The reply that reports the outcome. A failure has no reply of its own:
    /// a missing account is reported as `NotFound` and a failed sale as
    /// `Internal`. A committed sale reports its breakdown, the unit price,
    /// the balances and the item's price; a rejection reports zero for each.
    pub fn response(&self, item_key: &str) -> (reply: Result<SellItemResponse, Failure>)
        ensures
            reply is Err <==> self.failure() is Some,
            reply matches Err(failure) ==> self.failure() == Some(failure),
            reply matches Ok(r) ==> {
                &&& r.success == self.succeeded()
                &&& r.message@ == self.message_text(item_key@)
                &&& match *self {
                    SaleOutcome::Completed { plan, new_wallet, new_bank, new_item_price } => {
                        &&& r.gross_earned == plan.fees.gross_amount
                        &&& r.transaction_fee == plan.fees.transaction_fee
                        &&& r.vat == plan.fees.vat
                        &&& r.net_earned == plan.fees.net_amount
                        &&& r.price_per_unit == plan.price_per_unit
                        &&& r.new_wallet == new_wallet
                        &&& r.new_bank == new_bank
                        &&& r.new_item_price == new_item_price
                    },
                    _ => {
                        &&& r.gross_earned == 0
                        &&& r.transaction_fee == 0
                        &&& r.vat == 0
                        &&& r.net_earned == 0
                        &&& r.price_per_unit == 0
                        &&& r.new_wallet == 0
                        &&& r.new_bank == 0
                        &&& r.new_item_price == 0
                    },
                }
            },
    {
        let message = self.message(item_key);
        match self {
            SaleOutcome::Completed { plan, new_wallet, new_bank, new_item_price } => Ok(
                SellItemResponse {
                    success: true,
                    message,
                    gross_earned: plan.fees.gross_amount,
                    transaction_fee: plan.fees.transaction_fee,
                    vat: plan.fees.vat,
                    net_earned: plan.fees.net_amount,
                    price_per_unit: plan.price_per_unit,
                    new_wallet: *new_wallet,
                    new_bank: *new_bank,
                    new_item_price: *new_item_price,
                },
            ),
            SaleOutcome::AccountNotFound => Err(Failure::NotFound),
            SaleOutcome::Failed => Err(Failure::Internal),
            _ => Ok(
                SellItemResponse {
                    success: false,
                    message,
                    gross_earned: 0,
                    transaction_fee: 0,
                    vat: 0,
                    net_earned: 0,
                    price_per_unit: 0,
                    new_wallet: 0,
                    new_bank: 0,
                    new_item_price: 0,
                },
            ),
        }
    }
}

/// Where a sale stands.
#[derive(Clone, Copy, Debug, PartialEq, Eq)]
pub enum SaleState {
    /// The quantity is positive; the configuration is being loaded.
    AwaitingConfig { quantity: i32 },
    /// The item is being read.
    AwaitingItem { config: ConfigManager, quantity: i32 },
    /// The sale is planned; the volumes of the trailing window are being
    /// read.
    AwaitingVolumes { plan: SalePlan, price: ItemPrice },
    /// The sale is being committed; `repriced` is the item's price after the
    /// sale, where it could be computed.
    AwaitingCommit { plan: SalePlan, repriced: Option<ItemPrice> },
    /// The sale is committed; the new price is being written.
    AwaitingPriceWrite { plan: SalePlan, repriced: ItemPrice },
    /// The account is being read for its new balances.
    AwaitingBalances { plan: SalePlan, new_item_price: i64 },
    /// The reply was given.
    Done,
}

/// What storage answered.
#[derive(Clone, Copy, Debug, PartialEq, Eq)]
pub enum SaleEvent {
    /// The configuration was loaded.
    ConfigLoaded(ConfigManager),
    /// The item was read; there is none where the market has no such key.
    ItemRead(Option<ItemPrice>),
    /// The volumes sold and bought over the trailing window were read.
    VolumesRead { sales_volume: i64, buy_volume: i64 },
    /// The sale was committed.
    Committed,
    /// The credit matched no account; the transaction was rolled back and
    /// nothing was written.
    AccountMissing,
    /// The new price was written.
    PriceWritten,
    /// The account was read; there is none where no row has the player.
    AccountRead(Option<Account>),
    /// Storage failed; what it was asked to write was not written.
    StorageFailed,
}

/// What the sale asks for next.
#[derive(Clone, Copy, Debug, PartialEq, Eq, Structural)]
pub enum SaleAction {
    /// Load the configuration.
    LoadConfig,
    /// Read the item.
    ReadItem,
    /// Read the volumes sold and bought of the item over the trailing
    /// window.
    ReadVolumes,
    /// Commit the sale in one transaction: credit the wallet with the net,
    /// append the trade record, raise the item's counter by the quantity.
    /// Where the credit matches no account, write nothing and answer
    /// `AccountMissing`.
    Commit(SalePlan),
    /// Write the item's new multiplier and prices.
    WritePrice(ItemPrice),
    /// Read the player's account.
    ReadAccount,
    /// Give this reply; the sale is over.
    Reply(SaleOutcome),
}

/// The number of storage operations that a sale in this state can still ask
/// for.
pub open spec fn sale_steps_left(state: SaleState) -> nat {
    match state {
        SaleState::AwaitingConfig { .. } => 6,
        SaleState::AwaitingItem { .. } => 5,
        SaleState::AwaitingVolumes { .. } => 4,
        SaleState::AwaitingCommit { .. } => 3,
        SaleState::AwaitingPriceWrite { .. } => 2,
        SaleState::AwaitingBalances { .. } => 1,
        SaleState::Done => 0,
    }
}

/// The first step of a sale: a quantity that is not positive is rejected at
/// once, and any other asks for the configuration.
pub open spec fn sale_begun(quantity: i32) -> (SaleState, SaleAction) {
    if quantity > 0 {
        (SaleState::AwaitingConfig { quantity }, SaleAction::LoadConfig)
    } else {
        (SaleState::Done, SaleAction::Reply(SaleOutcome::InvalidQuantity { quantity }))
    }
}

/// The step of a sale: the next state and action, given the state and what
/// storage answered.
///
/// A missing item ends the sale as unavailable. With the item read, the sale
/// is planned at the item's sell price; the volumes are read and the price
/// after the sale is computed from them; then the sale is committed. Once it
/// is committed, the new price is written and the account is read for the
/// reply. Where the seller has no account the commit writes nothing, and the
/// sale ends as not found without asking for anything more. Where the volumes cannot be read or the price cannot be computed
/// or written, the sale goes on and the reply names the price of the sale.
/// Any other failure of storage, a sale that cannot be planned, and an event
/// that the state does not await end the sale as failed.
pub open spec fn sale_step(state: SaleState, event: SaleEvent) -> (SaleState, SaleAction) {
    let failed = (SaleState::Done, SaleAction::Reply(SaleOutcome::Failed));
    match (state, event) {
        (SaleState::AwaitingConfig { quantity }, SaleEvent::ConfigLoaded(config)) => (
            SaleState::AwaitingItem { config, quantity },
            SaleAction::ReadItem,
        ),
        (SaleState::AwaitingItem { config, quantity }, SaleEvent::ItemRead(Some(price))) => {
            match sale_planned(config, price, quantity as int) {
                Some(plan) => (SaleState::AwaitingVolumes { plan, price }, SaleAction::ReadVolumes),
                None => failed,
            }
        },
        (SaleState::AwaitingItem { .. }, SaleEvent::ItemRead(None)) => (
            SaleState::Done,
            SaleAction::Reply(SaleOutcome::ItemUnavailable),
        ),
        (
            SaleState::AwaitingVolumes { plan, price },
            SaleEvent::VolumesRead { sales_volume, buy_volume },
        ) => (
            SaleState::AwaitingCommit {
                plan,
                repriced: repriced_after_trade(
                    price,
                    Some(TradeKind::Sell),
                    plan.quantity as int,
                    sales_volume as int,
                    buy_volume as int,
                ),
            },
            SaleAction::Commit(plan),
        ),
        (SaleState::AwaitingVolumes { plan, .. }, SaleEvent::StorageFailed) => (
            SaleState::AwaitingCommit { plan, repriced: None },
            SaleAction::Commit(plan),
        ),
        (SaleState::AwaitingCommit { .. }, SaleEvent::AccountMissing) => (
            SaleState::Done,
            SaleAction::Reply(SaleOutcome::AccountNotFound),
        ),
        (SaleState::AwaitingCommit { plan, repriced }, SaleEvent::Committed) => match repriced {
            Some(price) => (
                SaleState::AwaitingPriceWrite { plan, repriced: price },
                SaleAction::WritePrice(price),
            ),
            None => (
                SaleState::AwaitingBalances { plan, new_item_price: plan.price_per_unit },
                SaleAction::ReadAccount,
            ),
        },
        (SaleState::AwaitingPriceWrite { plan, repriced }, SaleEvent::PriceWritten) => (
            SaleState::AwaitingBalances { plan, new_item_price: repriced.current_sell_price },
            SaleAction::ReadAccount,
        ),
        (SaleState::AwaitingPriceWrite { plan, .. }, SaleEvent::StorageFailed) => (
            SaleState::AwaitingBalances { plan, new_item_price: plan.price_per_unit },
            SaleAction::ReadAccount,
        ),
        (
            SaleState::AwaitingBalances { plan, new_item_price },
            SaleEvent::AccountRead(Some(account)),
        ) => (
            SaleState::Done,
            SaleAction::Reply(
                SaleOutcome::Completed {
                    plan,
                    new_wallet: account.wallet,
                    new_bank: account.bank,
                    new_item_price,
                },
            ),
        ),
        _ => failed,
    }
}

/// Starts a sale.
pub fn begin_sale(request: &SellItemRequest) -> (first: (SaleState, SaleAction))
    ensures
        first == sale_begun(request.quantity),
{
    if request.quantity > 0 {
        (SaleState::AwaitingConfig { quantity: request.quantity }, SaleAction::LoadConfig)
    } else {
        (
            SaleState::Done,
            SaleAction::Reply(SaleOutcome::InvalidQuantity { quantity: request.quantity }),
        )
    }
}

/// Takes a sale one step on: from the state and what storage answered to the
/// next state and what to do next.
pub fn sell_item(state: SaleState, event: SaleEvent) -> (next: (SaleState, SaleAction))
    ensures
        next == sale_step(state, event),
{
    match (state, event) {
        (SaleState::AwaitingConfig { quantity }, SaleEvent::ConfigLoaded(config)) => (
            SaleState::AwaitingItem { config, quantity },
            SaleAction::ReadItem,
        ),
        (SaleState::AwaitingItem { config, quantity }, SaleEvent::ItemRead(Some(price))) => {
            match plan_sale(&config, &price, quantity) {
                Some(plan) => (SaleState::AwaitingVolumes { plan, price }, SaleAction::ReadVolumes),
                None => (SaleState::Done, SaleAction::Reply(SaleOutcome::Failed)),
            }
        },
        (SaleState::AwaitingItem { .. }, SaleEvent::ItemRead(None)) => (
            SaleState::Done,
            SaleAction::Reply(SaleOutcome::ItemUnavailable),
        ),
        (
            SaleState::AwaitingVolumes { plan, price },
            SaleEvent::VolumesRead { sales_volume, buy_volume },
        ) => {
            proof {
                reveal_strlit("SELL");
                reveal_strlit("BUY");
            }
            let repriced = update_market_price(
                &price,
                TradeKind::Sell.as_str(),
                plan.quantity,
                sales_volume,
                buy_volume,
            );
            (SaleState::AwaitingCommit { plan, repriced }, SaleAction::Commit(plan))
        },
        (SaleState::AwaitingVolumes { plan, .. }, SaleEvent::StorageFailed) => (
            SaleState::AwaitingCommit { plan, repriced: None },
            SaleAction::Commit(plan),
        ),
        (SaleState::AwaitingCommit { .. }, SaleEvent::AccountMissing) => (
            SaleState::Done,
            SaleAction::Reply(SaleOutcome::AccountNotFound),
        ),
        (SaleState::AwaitingCommit { plan, repriced }, SaleEvent::Committed) => match repriced {
            Some(price) => (
                SaleState::AwaitingPriceWrite { plan, repriced: price },
                SaleAction::WritePrice(price),
            ),
            None => (
                SaleState::AwaitingBalances { plan, new_item_price: plan.price_per_unit },
                SaleAction::ReadAccount,
            ),
        },
        (SaleState::AwaitingPriceWrite { plan, repriced }, SaleEvent::PriceWritten) => (
            SaleState::AwaitingBalances { plan, new_item_price: repriced.current_sell_price },
            SaleAction::ReadAccount,
        ),
        (SaleState::AwaitingPriceWrite { plan, .. }, SaleEvent::StorageFailed) => (
            SaleState::AwaitingBalances { plan, new_item_price: plan.price_per_unit },
            SaleAction::ReadAccount,
        ),
        (
            SaleState::AwaitingBalances { plan, new_item_price },
            SaleEvent::AccountRead(Some(account)),
        ) => (
            SaleState::Done,
            SaleAction::Reply(
                SaleOutcome::Completed {
                    plan,
                    new_wallet: account.wallet,
                    new_bank: account.bank,
                    new_item_price,
                },
            ),
        ),
        _ => (SaleState::Done, SaleAction::Reply(SaleOutcome::Failed)),
    }
}

/// The item's price after a sale of `quantity` units at `now`, computed from
/// the volumes that the log holds before the sale is recorded. There is none
/// where a volume or a derived price cannot be held.
pub open spec fn price_after_sale(
    item: MarketItem,
    trades: Seq<TradeRecord>,
    quantity: int,
    now: int,
) -> Option<ItemPrice> {
    let sales = window_volume(trades, item.item_key@, TradeKind::Sell, now);
    let buys = window_volume(trades, item.item_key@, TradeKind::Buy, now);
    if fits_i64(sales) && fits_i64(buys) {
        repriced_after_trade(item.price_view(), Some(TradeKind::Sell), quantity, sales, buys)
    } else {
        None
    }
}

/// The item after a committed sale: the counter raised, and the new price
/// taken over where there is one.
pub open spec fn item_after_sale(item: MarketItem, quantity: int, repriced: Option<ItemPrice>)
    -> MarketItem {
    match repriced {
        Some(price) => item.sold(quantity).priced(price),
        None => item.sold(quantity),
    }
}

/// The item price that the reply to a committed sale names.
pub open spec fn price_named(plan: SalePlan, repriced: Option<ItemPrice>) -> i64 {
    match repriced {
        Some(price) => price.current_sell_price,
        None => plan.price_per_unit,
    }
}

/// Whether a sale that was committed left the account credited and the log
/// one record longer.
pub open spec fn sale_committed(
    account: Account,
    trades: Seq<TradeRecord>,
    before: Account,
    item_before: MarketItem,
    trades_before: Seq<TradeRecord>,
    plan: SalePlan,
    player_uuid: Seq<char>,
    now: i64,
) -> bool {
    &&& account == credited(before, plan.fees.net_amount as int)
    &&& trades.len() == trades_before.len() + 1
    &&& trades.drop_last() == trades_before
    &&& records_sale(trades.last(), player_uuid, item_before.item_key@, plan, now)
}

/// How a sale of an existing item ends, with what it leaves of the account,
/// the item and the trade log. The account is nothing where the seller has
/// none.
///
/// A quantity that is not positive is rejected; a sale that cannot be
/// planned, or whose writes cannot all be stored, fails; a seller without an
/// account is not found; in each of these cases nothing changes. Any other
/// sale completes: the wallet is credited with the net, the log is one record
/// longer, the item's counter is raised, and the item takes over its new
/// price where there is one.
pub open spec fn sale_leaves(
    outcome: SaleOutcome,
    account: Option<Account>,
    item: MarketItem,
    trades: Seq<TradeRecord>,
    config: ConfigManager,
    before: Option<Account>,
    item_before: MarketItem,
    trades_before: Seq<TradeRecord>,
    player_uuid: Seq<char>,
    quantity: i32,
    now: i64,
) -> bool {
    let unchanged = account == before && item == item_before && trades == trades_before;
    if quantity <= 0 {
        outcome == (SaleOutcome::InvalidQuantity { quantity }) && unchanged
    } else {
        match sale_planned(config, item_before.price_view(), quantity as int) {
            None => outcome == SaleOutcome::Failed && unchanged,
            Some(plan) => match before {
                None => outcome == SaleOutcome::AccountNotFound && unchanged,
                Some(holder) => if !can_settle(holder, item_before, plan) {
                    outcome == SaleOutcome::Failed && unchanged
                } else {
                    let repriced = price_after_sale(
                        item_before,
                        trades_before,
                        quantity as int,
                        now as int,
                    );
                    &&& account matches Some(credited_holder)
                    &&& sale_committed(
                        credited_holder,
                        trades,
                        holder,
                        item_before,
                        trades_before,
                        plan,
                        player_uuid,
                        now,
                    )
                    &&& item == item_after_sale(item_before, quantity as int, repriced)
                    &&& outcome == (SaleOutcome::Completed {
                        plan,
                        new_wallet: credited_holder.wallet,
                        new_bank: credited_holder.bank,
                        new_item_price: price_named(plan, repriced),
                    })
                },
            },
        }
    }
}

/// What ties a sale under way in memory to what it will leave.
spec fn sale_on_course(
    state: SaleState,
    action: SaleAction,
    account: Option<Account>,
    item: MarketItem,
    trades: Seq<TradeRecord>,
    config: ConfigManager,
    before: Option<Account>,
    item_before: MarketItem,
    trades_before: Seq<TradeRecord>,
    player_uuid: Seq<char>,
    quantity: i32,
    now: i64,
) -> bool {
    let unchanged = account == before && item == item_before && trades == trades_before;
    let planned = sale_planned(config, item_before.price_view(), quantity as int);
    let repriced = price_after_sale(item_before, trades_before, quantity as int, now as int);
    match action {
        SaleAction::Reply(outcome) => sale_leaves(
            outcome,
            account,
            item,
            trades,
            config,
            before,
            item_before,
            trades_before,
            player_uuid,
            quantity,
            now,
        ),
        SaleAction::LoadConfig => {
            &&& unchanged
            &&& quantity > 0
            &&& state matches SaleState::AwaitingConfig { quantity: q }
            &&& q == quantity
        },
        SaleAction::ReadItem => {
            &&& unchanged
            &&& quantity > 0
            &&& state matches SaleState::AwaitingItem { config: c, quantity: q }
            &&& q == quantity
            &&& c == config
        },
        SaleAction::ReadVolumes => {
            &&& unchanged
            &&& quantity > 0
            &&& state matches SaleState::AwaitingVolumes { plan, price }
            &&& planned == Some(plan)
            &&& price == item_before.price_view()
        },
        SaleAction::Commit(commit) => {
            &&& unchanged
            &&& quantity > 0
            &&& state matches SaleState::AwaitingCommit { plan, repriced: r }
            &&& commit == plan
            &&& planned == Some(plan)
            &&& r == repriced
        },
        SaleAction::WritePrice(price) => {
            &&& quantity > 0
            &&& state matches SaleState::AwaitingPriceWrite { plan, repriced: r }
            &&& r == price
            &&& planned == Some(plan)
            &&& repriced == Some(price)
            &&& before matches Some(holder)
            &&& account matches Some(credited_holder)
            &&& can_settle(holder, item_before, plan)
            &&& sale_committed(
                credited_holder,
                trades,
                holder,
                item_before,
                trades_before,
                plan,
                player_uuid,
                now,
            )
            &&& item == item_before.sold(quantity as int)
        },
        SaleAction::ReadAccount => {
            &&& quantity > 0
            &&& state matches SaleState::AwaitingBalances { plan, new_item_price }
            &&& planned == Some(plan)
            &&& before matches Some(holder)
            &&& account matches Some(credited_holder)
            &&& can_settle(holder, item_before, plan)
            &&& sale_committed(
                credited_holder,
                trades,
                holder,
                item_before,
                trades_before,
                plan,
                player_uuid,
                now,
            )
            &&& item == item_after_sale(item_before, quantity as int, repriced)
            &&& new_item_price == price_named(plan, repriced)
        },
    }
}

/// Reads both volumes of the item's window from the log.
fn read_volumes(trades: &Vec<TradeRecord>, item: &MarketItem, now: i64) -> (event: SaleEvent)
    ensures
        ({
            let sales = window_volume(trades@, item.item_key@, TradeKind::Sell, now as int);
            let buys = window_volume(trades@, item.item_key@, TradeKind::Buy, now as int);
            if fits_i64(sales) && fits_i64(buys) {
                event matches SaleEvent::VolumesRead { sales_volume, buy_volume } && sales_volume
                    == sales && buy_volume == buys
            } else {
                event is StorageFailed
            }
        }),
{
    let sales = recent_volume(trades, item.item_key.as_str(), TradeKind::Sell, now);
    let buys = recent_volume(trades, item.item_key.as_str(), TradeKind::Buy, now);
    match (sales, buys) {
        (Some(sales_volume), Some(buy_volume)) => SaleEvent::VolumesRead {
            sales_volume,
            buy_volume,
        },
        _ => SaleEvent::StorageFailed,
    }
}

/// Carries out a sale of `quantity` units of `item` by the player, at the
/// time `now`, on an account, an item and a trade log in memory: every
/// action that the sale asks for is performed on them. The account is
/// nothing where the seller has none.
pub fn sell(
    config: &ConfigManager,
    account: &mut Option<Account>,
    item: &mut MarketItem,
    trades: &mut Vec<TradeRecord>,
    player_uuid: &str,
    quantity: i32,
    now: i64,
) -> (outcome: SaleOutcome)
    ensures
        sale_leaves(
            outcome,
            *final(account),
            *final(item),
            final(trades)@,
            *config,
            *old(account),
            *old(item),
            old(trades)@,
            player_uuid@,
            quantity,
            now,
        ),
{
    let mut state: SaleState;
    let mut action: SaleAction;
    if quantity > 0 {
        state = SaleState::AwaitingConfig { quantity };
        action = SaleAction::LoadConfig;
    } else {
        state = SaleState::Done;
        action = SaleAction::Reply(SaleOutcome::InvalidQuantity { quantity });
    }
    loop
        invariant
            sale_on_course(
                state,
                action,
                *account,
                *item,
                trades@,
                *config,
                *old(account),
                *old(item),
                old(trades)@,
                player_uuid@,
                quantity,
                now,
            ),
        decreases sale_steps_left(state),
    {
        let event = match action {
            SaleAction::LoadConfig => SaleEvent::ConfigLoaded(*config),
            SaleAction::ReadItem => SaleEvent::ItemRead(Some(item.price())),
            SaleAction::ReadVolumes => read_volumes(trades, item, now),
            SaleAction::Commit(plan) => {
                match settle_sale(account, item, trades, &plan, player_uuid, now) {
                    Settlement::Committed => SaleEvent::Committed,
                    Settlement::AccountMissing => SaleEvent::AccountMissing,
                    Settlement::OutOfRange => SaleEvent::StorageFailed,
                }
            },
            SaleAction::WritePrice(price) => {
                item.set_price(&price);
                SaleEvent::PriceWritten
            },
            SaleAction::ReadAccount => SaleEvent::AccountRead(*account),
            SaleAction::Reply(outcome) => {
                return outcome;
            },
        };
        let (next_state, next_action) = sell_item(state, event);
        state = next_state;
        action = next_action;
    }
}

/// Whether a plan is one that a sale can have made: a positive quantity at a
/// price that is not negative, a gross of price times quantity, and a
/// breakdown of non-negative parts that add up to the gross.
pub open spec fn plan_sound(plan: SalePlan) -> bool {
    &&& plan.quantity > 0
    &&& plan.price_per_unit >= 0
    &&& plan.fees.gross_amount == plan.price_per_unit * plan.quantity
    &&& plan.fees.transaction_fee >= 0
    &&& plan.fees.vat >= 0
    &&& plan.fees.net_amount >= 0
    &&& plan.fees.transaction_fee + plan.fees.vat + plan.fees.net_amount
        == plan.fees.gross_amount
}

/// Whether a state is one that a sale can be in: the quantity is positive,
/// the snapshot is valid, the plan is sound, and a price that waits to be
/// written is valid.
pub open spec fn sale_state_sound(state: SaleState) -> bool {
    match state {
        SaleState::AwaitingConfig { quantity } => quantity > 0,
        SaleState::AwaitingItem { config, quantity } => quantity > 0 && config.valid(),
        SaleState::AwaitingVolumes { plan, .. } => plan_sound(plan),
        SaleState::AwaitingCommit { plan, repriced } => plan_sound(plan) && (repriced matches Some(
            price,
        ) ==> price.valid()),
        SaleState::AwaitingPriceWrite { plan, repriced } => plan_sound(plan) && repriced.valid(),
        SaleState::AwaitingBalances { plan, .. } => plan_sound(plan),
        SaleState::Done => true,
    }
}

/// A sale that begins is in a sound state, and every step keeps it so. What
/// a sale asks storage to commit is therefore always a sound plan, which
/// never takes money from a wallet, and what it asks storage to write as a
/// price always has its multiplier between 0.1 and 4 and both prices derived
/// from it.
pub proof fn lemma_sale_stays_sound(state: SaleState, event: SaleEvent)
    requires
        sale_state_sound(state),
        event matches SaleEvent::ConfigLoaded(config) ==> config.valid(),
    ensures
        sale_state_sound(sale_step(state, event).0),
        sale_step(state, event).1 matches SaleAction::Commit(plan) ==> plan_sound(plan),
        sale_step(state, event).1 matches SaleAction::WritePrice(price) ==> price.valid(),
        sale_step(state, event).1 matches SaleAction::Reply(
            SaleOutcome::Completed { plan, .. },
        ) ==> plan_sound(plan),
{
    match (state, event) {
        (SaleState::AwaitingItem { config, quantity }, SaleEvent::ItemRead(Some(price))) => {
            if sale_planned(config, price, quantity as int) is Some {
                crate::config::lemma_market_fees_split(
                    config,
                    price.current_sell_price * quantity,
                );
            }
        },
        _ => {},
    }
}

/// The first state of a sale is sound.
pub proof fn lemma_sale_begins_sound(quantity: i32)
    ensures
        sale_state_sound(sale_begun(quantity).0),
{
}

/// A sale of no units, or of fewer, is rejected before storage is asked for
/// anything.
pub proof fn lemma_empty_sale_touches_nothing(quantity: i32)
    requires
        quantity <= 0,
    ensures
        sale_begun(quantity) == (
            SaleState::Done,
            SaleAction::Reply(SaleOutcome::InvalidQuantity { quantity }),
        ),
{
}

/// Each step leaves fewer storage operations to come, and a step that
/// replies ends the sale: no sale asks storage for more than six operations,
/// and none asks for anything after its reply.
pub proof fn lemma_sale_advances(state: SaleState, event: SaleEvent)
    ensures
        state !is Done ==> sale_steps_left(sale_step(state, event).0) < sale_steps_left(state),
        sale_step(state, event).1 is Reply <==> sale_step(state, event).0 is Done,
        state is Done ==> sale_step(state, event).1 == SaleAction::Reply(SaleOutcome::Failed),
{
}

/// A missing item ends the sale as unavailable, with nothing written.
pub proof fn lemma_missing_item_is_unavailable(config: ConfigManager, quantity: i32)
    ensures
        sale_step(SaleState::AwaitingItem { config, quantity }, SaleEvent::ItemRead(None)).1
            == SaleAction::Reply(SaleOutcome::ItemUnavailable),
{
}

/// Once a sale is committed, no failure of storage undoes it or keeps it
/// from being reported: a price that cannot be written only makes the reply
/// name the price of the sale.
pub proof fn lemma_price_failure_keeps_sale(plan: SalePlan, repriced: ItemPrice)
    ensures
        sale_step(
            SaleState::AwaitingPriceWrite { plan, repriced },
            SaleEvent::StorageFailed,
        ).1 == SaleAction::ReadAccount,
        sale_step(SaleState::AwaitingPriceWrite { plan, repriced }, SaleEvent::StorageFailed).0
            matches SaleState::AwaitingBalances { plan: p, new_item_price } && p == plan
            && new_item_price == plan.price_per_unit,
{
}

/// A committed sale counts toward the window from the moment it is
/// recorded: the volume sold of the item, read at the time of the sale, is
/// larger by the quantity than it was before, and the volume bought is as it
/// was.
pub proof fn lemma_committed_sale_enters_window(
    account: Account,
    trades: Seq<TradeRecord>,
    before: Account,
    item_before: MarketItem,
    trades_before: Seq<TradeRecord>,
    plan: SalePlan,
    player_uuid: Seq<char>,
    now: i64,
)
    requires
        sale_committed(
            account,
            trades,
            before,
            item_before,
            trades_before,
            plan,
            player_uuid,
            now,
        ),
    ensures
        window_volume(trades, item_before.item_key@, TradeKind::Sell, now as int) == window_volume(
            trades_before,
            item_before.item_key@,
            TradeKind::Sell,
            now as int,
        ) + plan.quantity,
        window_volume(trades, item_before.item_key@, TradeKind::Buy, now as int) == window_volume(
            trades_before,
            item_before.item_key@,
            TradeKind::Buy,
            now as int,
        ),
{
}

/// A seller without an account is not found, and nothing is written for the
/// sale: the commit that matched no account ends the sale at once, with no
/// price written and no further read.
pub proof fn lemma_missing_account_applies_nothing(plan: SalePlan, repriced: Option<ItemPrice>)
    ensures
        sale_step(SaleState::AwaitingCommit { plan, repriced }, SaleEvent::AccountMissing) == (
            SaleState::Done,
            SaleAction::Reply(SaleOutcome::AccountNotFound),
        ),
        SaleOutcome::AccountNotFound.failure() == Some(Failure::NotFound),
        !SaleOutcome::AccountNotFound.succeeded(),
{
}

/// A sale leaves a valid account valid and a valid item valid, and it leaves
/// account, item and log untouched unless it completes. The bank balance is
/// never touched, and a seller without an account never completes a sale.
pub proof fn lemma_sale_keeps_state_valid(
    outcome: SaleOutcome,
    account: Option<Account>,
    item: MarketItem,
    trades: Seq<TradeRecord>,
    config: ConfigManager,
    before: Option<Account>,
    item_before: MarketItem,
    trades_before: Seq<TradeRecord>,
    player_uuid: Seq<char>,
    quantity: i32,
    now: i64,
)
    requires
        config.valid(),
        before matches Some(holder) ==> holder.valid(),
        sale_leaves(
            outcome,
            account,
            item,
            trades,
            config,
            before,
            item_before,
            trades_before,
            player_uuid,
            quantity,
            now,
        ),
    ensures
        account is Some <==> before is Some,
        account matches Some(holder) ==> holder.valid() && holder.bank == before.unwrap().bank
            && holder.is_bank_open == before.unwrap().is_bank_open,
        !outcome.succeeded() ==> account == before && item == item_before && trades
            == trades_before,
        quantity <= 0 ==> !outcome.succeeded(),
        before is None ==> !outcome.succeeded(),
        before is None && quantity > 0 && sale_planned(
            config,
            item_before.price_view(),
            quantity as int,
        ) is Some ==> outcome == SaleOutcome::AccountNotFound,
        item_before.valid() ==> item.valid(),
{
    if quantity > 0 && before is Some && sale_planned(
        config,
        item_before.price_view(),
        quantity as int,
    ) is Some {
        crate::market::lemma_sale_keeps_account_valid(
            config,
            before.unwrap(),
            item_before.price_view(),
            quantity as int,
        );
    }
}

} // verus!
