use game_economy::account::Account;
use game_economy::config::{ConfigManager, MarketFees};
use game_economy::market::{
    plan_sale, recent_volume, settle_sale, MarketItem, SalePlan, SellItemRequest, Settlement,
    TradeRecord, TRADE_WINDOW_SECONDS,
};
use game_economy::price_regeneration::{
    regenerate_prices, PriceRegenerationService, ServiceAction, ServiceEvent, ServiceState,
    DECAY_PERIOD_SECONDS,
};
use game_economy::pricing::{quote, ItemPrice, TradeKind};
use game_economy::sale::{
    begin_sale, sell_item, SaleAction, SaleEvent, SaleOutcome, SaleState,
};
use game_economy::status::{Failure, Lookup, STATUS_OK};

const ONE: i64 = 1_000_000;
const NOW: i64 = 1_700_000_000;

fn defaults() -> ConfigManager {
    ConfigManager::load_from_db(&Vec::new()).unwrap()
}

fn item(key: &str, base_price: i64, multiplier: i64) -> MarketItem {
    let price = quote(base_price, multiplier).unwrap();
    MarketItem {
        id: 1,
        item_key: key.to_string(),
        item_name: format!("Item {}", key),
        base_price,
        current_sell_price: price.current_sell_price,
        current_buy_price: price.current_buy_price,
        total_sold: 0,
        total_bought: 0,
        price_multiplier: multiplier,
    }
}

fn record(key: &str, kind: TradeKind, quantity: i32, timestamp: i64) -> TradeRecord {
    TradeRecord {
        player_uuid: "p-1".to_string(),
        item_key: key.to_string(),
        kind,
        quantity,
        price_per_unit: 10,
        total_amount: 10 * quantity as i64,
        price_multiplier: ONE,
        timestamp,
    }
}

fn account(wallet: i64, bank: i64) -> Account {
    Account { wallet, bank, is_bank_open: true }
}

fn sell(
    config: &ConfigManager,
    player: &mut Account,
    item: &mut MarketItem,
    log: &mut Vec<TradeRecord>,
    player_uuid: &str,
    quantity: i32,
    now: i64,
) -> SaleOutcome {
    let mut holder = Some(*player);
    let outcome = game_economy::sale::sell(config, &mut holder, item, log, player_uuid, quantity, now);
    *player = holder.unwrap();
    outcome
}

fn settle(
    player: &mut Account,
    item: &mut MarketItem,
    log: &mut Vec<TradeRecord>,
    plan: &SalePlan,
) -> Settlement {
    let mut holder = Some(*player);
    let done = settle_sale(&mut holder, item, log, plan, "p-9", NOW);
    *player = holder.unwrap();
    done
}

fn wheat_plan() -> SalePlan {
    SalePlan {
        quantity: 64,
        price_per_unit: 100,
        price_multiplier: ONE,
        fees: MarketFees {
            gross_amount: 6_400,
            transaction_fee: 128,
            vat: 2_132,
            net_amount: 4_140,
        },
    }
}

#[test]
fn selling_nothing_is_rejected_and_changes_nothing() {
    let mut player = account(10, 20);
    let mut wheat = item("wheat", 100, ONE);
    let mut log = vec![record("wheat", TradeKind::Sell, 5, NOW - 10)];
    for quantity in [0, -1, i32::MIN] {
        let outcome = sell(&defaults(), &mut player, &mut wheat, &mut log, "p-9", quantity, NOW);
        assert_eq!(outcome, SaleOutcome::InvalidQuantity { quantity });
        assert_eq!(player, account(10, 20));
        assert_eq!(wheat.total_sold, 0);
        assert_eq!(wheat.price_multiplier, ONE);
        assert_eq!(wheat.current_sell_price, 100);
        assert_eq!(wheat.current_buy_price, 160);
        assert_eq!(log.len(), 1);
        let asked = SellItemRequest { item_key: "wheat".to_string(), quantity };
        let (state, action) = begin_sale(&asked);
        assert!(matches!(state, SaleState::Done));
        assert_eq!(action, SaleAction::Reply(SaleOutcome::InvalidQuantity { quantity }));
    }
    let reply = SaleOutcome::InvalidQuantity { quantity: 0 }.response("wheat").unwrap();
    assert!(!reply.success);
    assert_eq!(reply.message, "Quantity must be greater than zero");
    assert_eq!(reply.net_earned, 0);
    assert_eq!(reply.new_item_price, 0);
}

#[test]
fn first_sale_of_a_lot_reads_an_empty_window() {
    let mut player = account(1_000, 50);
    let mut wheat = item("wheat", 100, ONE);
    let mut log = Vec::new();
    let outcome = sell(&defaults(), &mut player, &mut wheat, &mut log, "p-9", 64, NOW);
    assert_eq!(
        outcome,
        SaleOutcome::Completed {
            plan: wheat_plan(),
            new_wallet: 5_140,
            new_bank: 50,
            new_item_price: 97,
        }
    );
    assert_eq!(player, account(5_140, 50));
    assert_eq!(wheat.price_multiplier, 970_030);
    assert_eq!(wheat.current_sell_price, 97);
    assert_eq!(wheat.current_buy_price, 155);
    assert_eq!(wheat.total_sold, 64);
    assert_eq!(wheat.total_bought, 0);
    assert_eq!(wheat.base_price, 100);
    assert_eq!(wheat.item_key, "wheat");
    assert_eq!(log.len(), 1);
    assert_eq!(log[0].player_uuid, "p-9");
    assert_eq!(log[0].item_key, "wheat");
    assert_eq!(log[0].kind, TradeKind::Sell);
    assert_eq!(log[0].quantity, 64);
    assert_eq!(log[0].price_per_unit, 100);
    assert_eq!(log[0].total_amount, 6_400);
    assert_eq!(log[0].price_multiplier, ONE);
    assert_eq!(log[0].timestamp, NOW);
}

#[test]
fn second_sale_reads_the_first_in_its_window() {
    let mut player = account(0, 0);
    let mut wheat = item("wheat", 100, ONE);
    let mut log = Vec::new();
    sell(&defaults(), &mut player, &mut wheat, &mut log, "p-9", 64, NOW);
    let outcome = sell(&defaults(), &mut player, &mut wheat, &mut log, "p-9", 64, NOW + 60);
    assert_eq!(wheat.price_multiplier, 930_099);
    assert_eq!(wheat.current_sell_price, 93);
    assert_eq!(wheat.current_buy_price, 149);
    assert_eq!(wheat.total_sold, 128);
    assert_eq!(log.len(), 2);
    assert_eq!(log[1].price_per_unit, 97);
    assert_eq!(log[1].price_multiplier, 970_030);
    assert_eq!(log[1].total_amount, 6_208);
    match outcome {
        SaleOutcome::Completed { plan, new_wallet, new_item_price, .. } => {
            assert_eq!(plan.fees.gross_amount, 6_208);
            assert_eq!(plan.fees.transaction_fee, 124);
            assert_eq!(plan.fees.vat, 2_068);
            assert_eq!(plan.fees.net_amount, 4_016);
            assert_eq!(new_wallet, 4_140 + 4_016);
            assert_eq!(new_item_price, 93);
        }
        other => panic!("unexpected outcome {:?}", other),
    }
}

#[test]
fn reply_of_a_completed_sale() {
    let outcome = SaleOutcome::Completed {
        plan: wheat_plan(),
        new_wallet: 5_140,
        new_bank: 50,
        new_item_price: 97,
    };
    let reply = outcome.response("wheat").unwrap();
    assert!(reply.success);
    assert_eq!(reply.message, "Successfully sold wheat x64");
    assert_eq!(reply.gross_earned, 6_400);
    assert_eq!(reply.transaction_fee, 128);
    assert_eq!(reply.vat, 2_132);
    assert_eq!(reply.net_earned, 4_140);
    assert_eq!(reply.price_per_unit, 100);
    assert_eq!(reply.new_wallet, 5_140);
    assert_eq!(reply.new_bank, 50);
    assert_eq!(reply.new_item_price, 97);
}

#[test]
fn replies_of_the_other_outcomes() {
    let reply = SaleOutcome::ItemUnavailable.response("ghost").unwrap();
    assert!(!reply.success);
    assert_eq!(reply.message, "Item not available in market");
    assert_eq!(
        (reply.gross_earned, reply.transaction_fee, reply.vat, reply.net_earned),
        (0, 0, 0, 0)
    );
    assert_eq!(
        (reply.price_per_unit, reply.new_wallet, reply.new_bank, reply.new_item_price),
        (0, 0, 0, 0)
    );
    assert_eq!(SaleOutcome::Failed.response("wheat").err(), Some(Failure::Internal));
    assert_eq!(SaleOutcome::Failed.message("wheat"), "Internal error");
}

#[test]
fn window_counts_the_item_the_kind_and_the_last_hour() {
    let log = vec![
        record("wheat", TradeKind::Sell, 5, NOW - TRADE_WINDOW_SECONDS - 1),
        record("wheat", TradeKind::Sell, 7, NOW - TRADE_WINDOW_SECONDS),
        record("wheat", TradeKind::Buy, 11, NOW - 30),
        record("corn", TradeKind::Sell, 13, NOW - 30),
        record("wheat", TradeKind::Sell, 17, NOW),
        record("wheat", TradeKind::Sell, 19, NOW + 500),
    ];
    assert_eq!(recent_volume(&log, "wheat", TradeKind::Sell, NOW), Some(7 + 17 + 19));
    assert_eq!(recent_volume(&log, "wheat", TradeKind::Buy, NOW), Some(11));
    assert_eq!(recent_volume(&log, "corn", TradeKind::Sell, NOW), Some(13));
    assert_eq!(recent_volume(&log, "corn", TradeKind::Buy, NOW), Some(0));
    assert_eq!(recent_volume(&log, "rye", TradeKind::Sell, NOW), Some(0));
    assert_eq!(recent_volume(&Vec::new(), "wheat", TradeKind::Sell, NOW), Some(0));
    assert_eq!(recent_volume(&log, "wheat", TradeKind::Sell, i64::MIN), Some(5 + 7 + 17 + 19));
    assert_eq!(recent_volume(&log, "wheat", TradeKind::Sell, i64::MAX), Some(0));
    assert_eq!(TRADE_WINDOW_SECONDS, 3_600);
    assert_eq!(DECAY_PERIOD_SECONDS, 3 * 60 * 60);
}

#[test]
fn sale_under_demand_uses_both_volumes() {
    let mut player = account(0, 0);
    let mut wheat = item("wheat", 100, ONE);
    let mut log = vec![
        record("wheat", TradeKind::Sell, 300, NOW - 5),
        record("wheat", TradeKind::Buy, 100, NOW - 5),
        record("wheat", TradeKind::Buy, 900, NOW - 2 * TRADE_WINDOW_SECONDS),
    ];
    sell(&defaults(), &mut player, &mut wheat, &mut log, "p-9", 32, NOW);
    assert_eq!(wheat.price_multiplier, 975_025);
    assert_eq!(wheat.current_sell_price, 98);
    assert_eq!(wheat.current_buy_price, 156);
}

#[test]
fn plan_of_a_sale() {
    let wheat = item("wheat", 100, ONE).price();
    assert_eq!(plan_sale(&defaults(), &wheat, 64), Some(wheat_plan()));
    assert_eq!(plan_sale(&defaults(), &wheat, 0), None);
    assert_eq!(plan_sale(&defaults(), &wheat, -64), None);
    let free = item("air", 0, ONE).price();
    assert_eq!(plan_sale(&defaults(), &free, 3).unwrap().fees.net_amount, 0);
}

#[test]
fn sale_that_cannot_be_planned_fails_and_changes_nothing() {
    let mut player = account(10, 20);
    let mut log = Vec::new();
    let mut dear = item("gem", i64::MAX / 2, ONE);
    let outcome = sell(&defaults(), &mut player, &mut dear, &mut log, "p-9", 3, NOW);
    assert_eq!(outcome, SaleOutcome::Failed);
    assert_eq!(player, account(10, 20));
    assert_eq!(dear.total_sold, 0);
    assert!(log.is_empty());
    let mut debt = item("debt", -5, ONE);
    assert_eq!(debt.current_sell_price, -5);
    let outcome = sell(&defaults(), &mut player, &mut debt, &mut log, "p-9", 3, NOW);
    assert_eq!(outcome, SaleOutcome::Failed);
    assert_eq!(player, account(10, 20));
    assert!(log.is_empty());
}

#[test]
fn sale_that_cannot_be_stored_fails_and_changes_nothing() {
    let mut player = account(i64::MAX - 100, 20);
    let mut wheat = item("wheat", 100, ONE);
    let mut log = Vec::new();
    let outcome = sell(&defaults(), &mut player, &mut wheat, &mut log, "p-9", 64, NOW);
    assert_eq!(outcome, SaleOutcome::Failed);
    assert_eq!(player, account(i64::MAX - 100, 20));
    assert_eq!(wheat.total_sold, 0);
    assert_eq!(wheat.price_multiplier, ONE);
    assert!(log.is_empty());
    let mut player = account(0, 0);
    wheat.total_sold = i64::MAX - 63;
    assert_eq!(settle(&mut player, &mut wheat, &mut log, &wheat_plan()), Settlement::OutOfRange);
    assert_eq!(player, account(0, 0));
    assert_eq!(wheat.total_sold, i64::MAX - 63);
    assert!(log.is_empty());
    wheat.total_sold = i64::MAX - 64;
    assert_eq!(settle(&mut player, &mut wheat, &mut log, &wheat_plan()), Settlement::Committed);
    assert_eq!(player, account(4_140, 0));
    assert_eq!(wheat.total_sold, i64::MAX);
    assert_eq!(log.len(), 1);
}

#[test]
fn sale_stands_where_the_new_price_cannot_be_held() {
    let mut player = account(0, 0);
    let base = 2_000_000_000_000_000_000;
    let mut gem = MarketItem {
        id: 7,
        item_key: "gem".to_string(),
        item_name: "Gem".to_string(),
        base_price: base,
        current_sell_price: 1,
        current_buy_price: 2,
        total_sold: 0,
        total_bought: 0,
        price_multiplier: 4 * ONE,
    };
    let mut log = Vec::new();
    let outcome = sell(&defaults(), &mut player, &mut gem, &mut log, "p-9", 1, NOW);
    assert_eq!(
        outcome,
        SaleOutcome::Completed {
            plan: SalePlan {
                quantity: 1,
                price_per_unit: 1,
                price_multiplier: 4 * ONE,
                fees: MarketFees { gross_amount: 1, transaction_fee: 0, vat: 0, net_amount: 1 },
            },
            new_wallet: 1,
            new_bank: 0,
            new_item_price: 1,
        }
    );
    assert_eq!(gem.total_sold, 1);
    assert_eq!(gem.price_multiplier, 4 * ONE);
    assert_eq!(gem.current_sell_price, 1);
    assert_eq!(log.len(), 1);
}

#[test]
fn steps_of_a_completed_sale() {
    let asked = SellItemRequest { item_key: "wheat".to_string(), quantity: 64 };
    let (state, action) = begin_sale(&asked);
    assert_eq!(action, SaleAction::LoadConfig);
    let (state, action) = sell_item(state, SaleEvent::ConfigLoaded(defaults()));
    assert_eq!(action, SaleAction::ReadItem);
    let wheat = item("wheat", 100, ONE).price();
    let (state, action) = sell_item(state, SaleEvent::ItemRead(Some(wheat)));
    assert_eq!(action, SaleAction::ReadVolumes);
    let (state, action) =
        sell_item(state, SaleEvent::VolumesRead { sales_volume: 0, buy_volume: 0 });
    assert_eq!(action, SaleAction::Commit(wheat_plan()));
    let (state, action) = sell_item(state, SaleEvent::Committed);
    let repriced = ItemPrice {
        base_price: 100,
        price_multiplier: 970_030,
        current_sell_price: 97,
        current_buy_price: 155,
    };
    assert_eq!(action, SaleAction::WritePrice(repriced));
    let (state, action) = sell_item(state, SaleEvent::PriceWritten);
    assert_eq!(action, SaleAction::ReadAccount);
    let (state, action) = sell_item(state, SaleEvent::AccountRead(Some(account(5_140, 50))));
    assert!(matches!(state, SaleState::Done));
    assert_eq!(
        action,
        SaleAction::Reply(SaleOutcome::Completed {
            plan: wheat_plan(),
            new_wallet: 5_140,
            new_bank: 50,
            new_item_price: 97,
        })
    );
}

fn committed_sale() -> SaleState {
    let asked = SellItemRequest { item_key: "wheat".to_string(), quantity: 64 };
    let (state, _) = begin_sale(&asked);
    let (state, _) = sell_item(state, SaleEvent::ConfigLoaded(defaults()));
    let (state, _) = sell_item(state, SaleEvent::ItemRead(Some(item("wheat", 100, ONE).price())));
    let (state, _) = sell_item(state, SaleEvent::VolumesRead { sales_volume: 0, buy_volume: 0 });
    let (state, _) = sell_item(state, SaleEvent::Committed);
    state
}

#[test]
fn price_that_cannot_be_written_leaves_the_sale_in_place() {
    let (state, action) = sell_item(committed_sale(), SaleEvent::StorageFailed);
    assert_eq!(action, SaleAction::ReadAccount);
    let (_, action) = sell_item(state, SaleEvent::AccountRead(Some(account(5_140, 50))));
    assert_eq!(
        action,
        SaleAction::Reply(SaleOutcome::Completed {
            plan: wheat_plan(),
            new_wallet: 5_140,
            new_bank: 50,
            new_item_price: 100,
        })
    );
}

#[test]
fn volumes_that_cannot_be_read_leave_the_price_alone() {
    let asked = SellItemRequest { item_key: "wheat".to_string(), quantity: 64 };
    let (state, _) = begin_sale(&asked);
    let (state, _) = sell_item(state, SaleEvent::ConfigLoaded(defaults()));
    let (state, _) = sell_item(state, SaleEvent::ItemRead(Some(item("wheat", 100, ONE).price())));
    let (state, action) = sell_item(state, SaleEvent::StorageFailed);
    assert_eq!(action, SaleAction::Commit(wheat_plan()));
    let (state, action) = sell_item(state, SaleEvent::Committed);
    assert_eq!(action, SaleAction::ReadAccount);
    let (_, action) = sell_item(state, SaleEvent::AccountRead(Some(account(4_140, 0))));
    assert_eq!(
        action,
        SaleAction::Reply(SaleOutcome::Completed {
            plan: wheat_plan(),
            new_wallet: 4_140,
            new_bank: 0,
            new_item_price: 100,
        })
    );
}

#[test]
fn missing_item_is_unavailable() {
    let asked = SellItemRequest { item_key: "ghost".to_string(), quantity: 2 };
    let (state, _) = begin_sale(&asked);
    let (state, _) = sell_item(state, SaleEvent::ConfigLoaded(defaults()));
    let (state, action) = sell_item(state, SaleEvent::ItemRead(None));
    assert!(matches!(state, SaleState::Done));
    assert_eq!(action, SaleAction::Reply(SaleOutcome::ItemUnavailable));
}

#[test]
fn storage_failures_before_the_commit_end_a_sale_as_failed() {
    let failed = SaleAction::Reply(SaleOutcome::Failed);
    let asked = SellItemRequest { item_key: "wheat".to_string(), quantity: 64 };
    let (awaiting_config, _) = begin_sale(&asked);
    assert_eq!(sell_item(awaiting_config, SaleEvent::StorageFailed).1, failed);
    let (awaiting_item, _) = sell_item(awaiting_config, SaleEvent::ConfigLoaded(defaults()));
    assert_eq!(sell_item(awaiting_item, SaleEvent::StorageFailed).1, failed);
    let (awaiting_volumes, _) =
        sell_item(awaiting_item, SaleEvent::ItemRead(Some(item("wheat", 100, ONE).price())));
    let (awaiting_commit, _) =
        sell_item(awaiting_volumes, SaleEvent::VolumesRead { sales_volume: 0, buy_volume: 0 });
    assert_eq!(sell_item(awaiting_commit, SaleEvent::StorageFailed).1, failed);
    let (awaiting_balances, _) = sell_item(committed_sale(), SaleEvent::PriceWritten);
    assert_eq!(sell_item(awaiting_balances, SaleEvent::StorageFailed).1, failed);
    assert_eq!(sell_item(awaiting_balances, SaleEvent::AccountRead(None)).1, failed);
    assert_eq!(sell_item(SaleState::Done, SaleEvent::Committed).1, failed);
    assert_eq!(sell_item(awaiting_config, SaleEvent::Committed).1, failed);
    assert_eq!(sell_item(awaiting_item, SaleEvent::PriceWritten).1, failed);
}

#[test]
fn decay_reprices_the_whole_catalogue() {
    let mut catalogue = vec![
        item("wheat", 100, 2_000_000),
        item("corn", 40, 500_000),
        item("gem", 1_000, 4_000_000),
        item("salt", 7, ONE),
    ];
    catalogue[1].total_sold = 9;
    assert_eq!(regenerate_prices(&mut catalogue), Some(4));
    let seen: Vec<(i64, i64, i64)> = catalogue
        .iter()
        .map(|i| (i.price_multiplier, i.current_sell_price, i.current_buy_price))
        .collect();
    assert_eq!(
        seen,
        vec![
            (1_900_000, 190, 304),
            (550_000, 22, 35),
            (3_000_000, 3_000, 4_800),
            (1_000_000, 7, 11),
        ]
    );
    assert_eq!(catalogue[1].total_sold, 9);
    assert_eq!(catalogue[1].item_key, "corn");
    assert_eq!(regenerate_prices(&mut Vec::new()), Some(0));
}

#[test]
fn decay_changes_nothing_where_one_price_cannot_be_held() {
    let mut catalogue = vec![item("wheat", 100, 2_000_000), item("gem", 1, ONE)];
    catalogue[1].base_price = i64::MAX;
    catalogue[1].price_multiplier = 2_000_000;
    assert_eq!(regenerate_prices(&mut catalogue), None);
    assert_eq!(catalogue[0].price_multiplier, 2_000_000);
    assert_eq!(catalogue[0].current_sell_price, 200);
    assert_eq!(catalogue[1].price_multiplier, 2_000_000);
}

#[test]
fn price_list_entry_of_an_item() {
    let wheat = item("wheat", 100, 970_030);
    let entry = wheat.light();
    assert_eq!(entry.item_key, "wheat");
    assert_eq!(entry.current_sell_price, 97);
    assert_eq!(entry.price_multiplier, 970_030);
    let mut corn = item("corn", 40, ONE);
    corn.set_price(&quote(40, 500_000).unwrap());
    assert_eq!(
        corn.price(),
        ItemPrice {
            base_price: 40,
            price_multiplier: 500_000,
            current_sell_price: 20,
            current_buy_price: 32,
        }
    );
}

#[test]
fn reads_are_reported_by_what_they_found() {
    assert_eq!(Lookup::Found(5).reply(), Ok(5));
    assert_eq!(Lookup::<i64>::Missing.reply(), Err(Failure::NotFound));
    assert_eq!(Lookup::<i64>::Failed.reply(), Err(Failure::Internal));
    assert_eq!(Failure::NotFound.status_code(), 404);
    assert_eq!(Failure::Internal.status_code(), 500);
    assert_eq!(STATUS_OK, 200);
}

#[test]
fn service_waits_runs_and_waits_again() {
    let wait = ServiceAction::AwaitTick { period_seconds: 10_800 };
    let mut service = PriceRegenerationService::new();
    assert_eq!(service.state, ServiceState::Created);
    assert_eq!(service.start(), wait);
    assert_eq!(service.state, ServiceState::Waiting);
    assert_eq!(service.start(), wait);
    assert_eq!(service.step(ServiceEvent::Tick), ServiceAction::Regenerate);
    assert_eq!(service.state, ServiceState::Regenerating);
    assert_eq!(service.start(), ServiceAction::Regenerate);
    assert_eq!(service.step(ServiceEvent::Regenerated { items: 12 }), wait);
    assert_eq!(service.step(ServiceEvent::Tick), ServiceAction::Regenerate);
    assert_eq!(service.step(ServiceEvent::RegenerationFailed), wait);
    assert_eq!(service.state, ServiceState::Waiting);
    assert_eq!(service.step(ServiceEvent::Tick), ServiceAction::Regenerate);
}

#[test]
fn service_stops_when_cancelled_and_stays_stopped() {
    for before in [ServiceState::Created, ServiceState::Waiting, ServiceState::Regenerating] {
        let mut service = PriceRegenerationService { state: before };
        assert_eq!(service.step(ServiceEvent::Cancelled), ServiceAction::Stop);
        assert_eq!(service.state, ServiceState::Stopped);
        assert_eq!(service.step(ServiceEvent::Tick), ServiceAction::Stop);
        assert_eq!(service.start(), ServiceAction::Stop);
        assert_eq!(service.state, ServiceState::Stopped);
    }
}

#[test]
fn service_stops_on_an_event_out_of_turn() {
    let mut service = PriceRegenerationService { state: ServiceState::Waiting };
    assert_eq!(service.step(ServiceEvent::Regenerated { items: 1 }), ServiceAction::Stop);
    let mut service = PriceRegenerationService { state: ServiceState::Regenerating };
    assert_eq!(service.step(ServiceEvent::Tick), ServiceAction::Stop);
    let mut service = PriceRegenerationService::new();
    assert_eq!(service.step(ServiceEvent::Tick), ServiceAction::Stop);
}

#[test]
fn seller_without_an_account_is_not_found_and_nothing_is_written() {
    let mut nobody: Option<Account> = None;
    let mut wheat = item("wheat", 100, ONE);
    let mut log = vec![record("wheat", TradeKind::Buy, 3, NOW - 10)];
    let outcome =
        game_economy::sale::sell(&defaults(), &mut nobody, &mut wheat, &mut log, "ghost", 64, NOW);
    assert_eq!(outcome, SaleOutcome::AccountNotFound);
    assert_eq!(nobody, None);
    assert_eq!(wheat.total_sold, 0);
    assert_eq!(wheat.price_multiplier, ONE);
    assert_eq!(wheat.current_sell_price, 100);
    assert_eq!(wheat.current_buy_price, 160);
    assert_eq!(log.len(), 1);
    assert_eq!(outcome.response("wheat").err(), Some(Failure::NotFound));
    assert_eq!(outcome.message("wheat"), "User not found");
    assert_eq!(
        settle_sale(&mut nobody, &mut wheat, &mut log, &wheat_plan(), "ghost", NOW),
        Settlement::AccountMissing
    );
    assert_eq!(wheat.total_sold, 0);
    assert_eq!(log.len(), 1);
}

#[test]
fn commit_that_matches_no_account_ends_the_sale_as_not_found() {
    let asked = SellItemRequest { item_key: "wheat".to_string(), quantity: 64 };
    let (state, _) = begin_sale(&asked);
    let (state, _) = sell_item(state, SaleEvent::ConfigLoaded(defaults()));
    let (state, _) = sell_item(state, SaleEvent::ItemRead(Some(item("wheat", 100, ONE).price())));
    let (state, action) =
        sell_item(state, SaleEvent::VolumesRead { sales_volume: 0, buy_volume: 0 });
    assert_eq!(action, SaleAction::Commit(wheat_plan()));
    let (state, action) = sell_item(state, SaleEvent::AccountMissing);
    assert!(matches!(state, SaleState::Done));
    assert_eq!(action, SaleAction::Reply(SaleOutcome::AccountNotFound));
    let (_, action) = sell_item(state, SaleEvent::PriceWritten);
    assert_eq!(action, SaleAction::Reply(SaleOutcome::Failed));
    let (awaiting_config, _) = begin_sale(&asked);
    assert_eq!(
        sell_item(awaiting_config, SaleEvent::AccountMissing).1,
        SaleAction::Reply(SaleOutcome::Failed)
    );
    assert_eq!(
        sell_item(committed_sale(), SaleEvent::AccountMissing).1,
        SaleAction::Reply(SaleOutcome::Failed)
    );
}

#[test]
fn invalid_quantity_and_missing_item_come_before_the_account() {
    let mut nobody: Option<Account> = None;
    let mut wheat = item("wheat", 100, ONE);
    let mut log = Vec::new();
    let outcome =
        game_economy::sale::sell(&defaults(), &mut nobody, &mut wheat, &mut log, "ghost", 0, NOW);
    assert_eq!(outcome, SaleOutcome::InvalidQuantity { quantity: 0 });
    let mut debt = item("debt", -5, ONE);
    let outcome =
        game_economy::sale::sell(&defaults(), &mut nobody, &mut debt, &mut log, "ghost", 1, NOW);
    assert_eq!(outcome, SaleOutcome::Failed);
    assert!(log.is_empty());
}
