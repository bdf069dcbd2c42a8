//! A player's two cash stores and the conditional update that moves money
//! between them.
//!
//! Storage applies a transfer as one atomic conditional update: the source
//! is debited and the destination credited only if the bank is open, the
//! amount is not negative and the source covers the whole deduction. `Account::apply_transfer` is that
//! update on a value in memory, and what is proved below is proved of it.

use crate::config::ConfigManager;
use crate::fixed::{fits_i64, lemma_portion_bounds};
use crate::text::same_text;
use vstd::prelude::*;

verus! {

/// One of a player's two cash stores.
#[derive(Clone, Copy, Debug, PartialEq, Eq, Structural)]
pub enum Store {
    Wallet,
    Bank,
}

impl Store {
    /// The store's name in requests and messages.
    pub open spec fn name(self) -> Seq<char> {
        match self {
            Store::Wallet => "wallet"@,
            Store::Bank => "bank"@,
        }
    }

    /// The store's name in requests and messages.
    pub fn as_str(&self) -> (s: &'static str)
        ensures
            s@ == self.name(),
    {
        match self {
            Store::Wallet => "wallet",
            Store::Bank => "bank",
        }
    }
}

/// A valid pair of source and destination.
#[derive(Clone, Copy, Debug, PartialEq, Eq, Structural)]
pub enum Direction {
    WalletToBank,
    BankToWallet,
}

/// The direction that a pair of store names stands for: wallet to bank, bank
/// to wallet, and nothing for any other pair.
pub open spec fn direction_of(from: Seq<char>, to: Seq<char>) -> Option<Direction> {
    if from == "wallet"@ && to == "bank"@ {
        Some(Direction::WalletToBank)
    } else if from == "bank"@ && to == "wallet"@ {
        Some(Direction::BankToWallet)
    } else {
        None
    }
}

impl Direction {
    /// The store that is debited.
    pub open spec fn source(self) -> Store {
        match self {
            Direction::WalletToBank => Store::Wallet,
            Direction::BankToWallet => Store::Bank,
        }
    }

    /// The store that is credited.
    pub open spec fn destination(self) -> Store {
        match self {
            Direction::WalletToBank => Store::Bank,
            Direction::BankToWallet => Store::Wallet,
        }
    }

    /// The store that is debited.
    pub fn from_store(&self) -> (store: Store)
        ensures
            store == self.source(),
    {
        match self {
            Direction::WalletToBank => Store::Wallet,
            Direction::BankToWallet => Store::Bank,
        }
    }

    /// The store that is credited.
    pub fn to_store(&self) -> (store: Store)
        ensures
            store == self.destination(),
    {
        match self {
            Direction::WalletToBank => Store::Bank,
            Direction::BankToWallet => Store::Wallet,
        }
    }

    /// The direction that a pair of store names stands for.
    pub fn parse(from: &str, to: &str) -> (direction: Option<Direction>)
        ensures
            direction == direction_of(from@, to@),
    {
        if same_text(from, "wallet") && same_text(to, "bank") {
            Some(Direction::WalletToBank)
        } else if same_text(from, "bank") && same_text(to, "wallet") {
            Some(Direction::BankToWallet)
        } else {
            None
        }
    }
}

/// What a transfer asks of storage: the direction, the amount that the
/// destination receives, the fee, and their sum, which the source pays.
#[derive(Clone, Copy, Debug, PartialEq, Eq, Structural)]
pub struct TransferPlan {
    pub direction: Direction,
    pub amount: i64,
    pub fee: i64,
    pub total_deducted: i64,
}

/// The fee on a transfer of `amount` in the given direction.
pub open spec fn direction_fee(config: ConfigManager, direction: Direction, amount: int) -> int {
    config.transfer_fee(direction.source().name(), direction.destination().name(), amount)
}

/// The plan of a transfer of `amount` in the given direction: the fee under
/// the snapshot and the total to deduct. There is none for a negative amount,
/// and none where the total cannot be held in an `i64`.
pub open spec fn planned(config: ConfigManager, direction: Direction, amount: int) -> Option<
    TransferPlan,
> {
    let fee = direction_fee(config, direction, amount);
    if 0 <= amount && fits_i64(amount) && fits_i64(fee) && fits_i64(amount + fee) {
        Some(
            TransferPlan {
                direction,
                amount: amount as i64,
                fee: fee as i64,
                total_deducted: (amount + fee) as i64,
            },
        )
    } else {
        None
    }
}

/// The plan of a transfer of `amount` in the given direction.
pub fn plan_transfer(config: &ConfigManager, direction: Direction, amount: i64) -> (plan: Option<
    TransferPlan,
>)
    ensures
        plan == planned(*config, direction, amount as int),
{
    if amount < 0 {
        return None;
    }
    let fee = config.calculate_transfer_fee(
        direction.from_store().as_str(),
        direction.to_store().as_str(),
        amount,
    );
    match amount.checked_add(fee) {
        Some(total_deducted) => Some(TransferPlan { direction, amount, fee, total_deducted }),
        None => None,
    }
}

/// How storage answered a conditional update.
#[derive(Clone, Copy, Debug, PartialEq, Eq, Structural)]
pub enum UpdateOutcome {
    /// The condition held and the row was changed.
    Applied,
    /// The condition failed: no row was changed.
    Declined,
    /// The condition held but a new balance cannot be stored: nothing changed.
    OutOfRange,
}

/// A player's account: the two balances and whether the bank is open.
#[derive(Clone, Copy, Debug, PartialEq, Eq, Structural)]
pub struct Account {
    pub wallet: i64,
    pub bank: i64,
    pub is_bank_open: bool,
}

impl Account {
    /// Neither balance is negative.
    pub open spec fn valid(self) -> bool {
        self.wallet >= 0 && self.bank >= 0
    }

    /// The balance of one store.
    pub open spec fn balance(self, store: Store) -> int {
        match store {
            Store::Wallet => self.wallet as int,
            Store::Bank => self.bank as int,
        }
    }

    /// The condition of the update: the bank is open, the amount is not
    /// negative, and the source covers the whole deduction.
    pub open spec fn accepts(self, plan: TransferPlan) -> bool {
        &&& self.is_bank_open
        &&& plan.amount >= 0
        &&& self.balance(plan.direction.source()) >= plan.total_deducted
    }

    /// What storage answers to the update.
    pub open spec fn transfer_outcome(self, plan: TransferPlan) -> UpdateOutcome {
        if !self.accepts(plan) {
            UpdateOutcome::Declined
        } else if !fits_i64(self.balance(plan.direction.source()) - plan.total_deducted)
            || !fits_i64(self.balance(plan.direction.destination()) + plan.amount) {
            UpdateOutcome::OutOfRange
        } else {
            UpdateOutcome::Applied
        }
    }

    /// The account after the update: the source less the total, the
    /// destination plus the amount where the update applies, and the account
    /// as it was where it does not.
    pub open spec fn after_transfer(self, plan: TransferPlan) -> Account {
        if self.transfer_outcome(plan) == UpdateOutcome::Applied {
            match plan.direction {
                Direction::WalletToBank => Account {
                    wallet: (self.wallet - plan.total_deducted) as i64,
                    bank: (self.bank + plan.amount) as i64,
                    is_bank_open: self.is_bank_open,
                },
                Direction::BankToWallet => Account {
                    wallet: (self.wallet + plan.amount) as i64,
                    bank: (self.bank - plan.total_deducted) as i64,
                    is_bank_open: self.is_bank_open,
                },
            }
        } else {
            self
        }
    }

    /// The account after the same update was attempted `times` times in a row.
    pub open spec fn after_transfers(self, plan: TransferPlan, times: nat) -> Account
        decreases times,
    {
        if times == 0 {
            self
        } else {
            self.after_transfers(plan, (times - 1) as nat).after_transfer(plan)
        }
    }

    /// The account after storage took the updates of `plans` one after
    /// another.
    pub open spec fn after_all(self, plans: Seq<TransferPlan>) -> Account
        decreases plans.len(),
    {
        if plans.len() == 0 {
            self
        } else {
            self.after_all(plans.drop_last()).after_transfer(plans.last())
        }
    }

    /// The balance of one store.
    pub fn balance_of(&self, store: Store) -> (balance: i64)
        ensures
            balance == self.balance(store),
    {
        match store {
            Store::Wallet => self.wallet,
            Store::Bank => self.bank,
        }
    }

    /// Applies the conditional update of a transfer, all of it or none.
    pub fn apply_transfer(&mut self, plan: &TransferPlan) -> (outcome: UpdateOutcome)
        ensures
            outcome == old(self).transfer_outcome(*plan),
            *final(self) == old(self).after_transfer(*plan),
    {
        let source = self.balance_of(plan.direction.from_store());
        let destination = self.balance_of(plan.direction.to_store());
        if !self.is_bank_open || plan.amount < 0 || source < plan.total_deducted {
            return UpdateOutcome::Declined;
        }
        match (source.checked_sub(plan.total_deducted), destination.checked_add(plan.amount)) {
            (Some(debited), Some(credited)) => {
                match plan.direction {
                    Direction::WalletToBank => {
                        self.wallet = debited;
                        self.bank = credited;
                    },
                    Direction::BankToWallet => {
                        self.bank = debited;
                        self.wallet = credited;
                    },
                }
                UpdateOutcome::Applied
            },
            _ => UpdateOutcome::OutOfRange,
        }
    }
}

/// Moves `amount` from wallet to bank with its fee, as one conditional
/// update. The result is the number of rows changed, 1 or 0, with the fee; it
/// is nothing where the amount is negative or where the total or a new
/// balance cannot be held, and then, as with 0 rows, the account is as it was.
pub fn wallet_to_bank_with_fee(config: &ConfigManager, account: &mut Account, amount: i64) -> (done:
    Option<(u64, i64)>)
    ensures
        done == transfer_result(*config, *old(account), Direction::WalletToBank, amount as int),
        *final(account) == account_after(
            *config,
            *old(account),
            Direction::WalletToBank,
            amount as int,
        ),
{
    transfer_with_fee(config, account, Direction::WalletToBank, amount)
}

/// Moves `amount` from bank to wallet with its fee, as one conditional
/// update. The result is the number of rows changed, 1 or 0, with the fee; it
/// is nothing where the amount is negative or where the total or a new
/// balance cannot be held, and then, as with 0 rows, the account is as it was.
pub fn bank_to_wallet_with_fee(config: &ConfigManager, account: &mut Account, amount: i64) -> (done:
    Option<(u64, i64)>)
    ensures
        done == transfer_result(*config, *old(account), Direction::BankToWallet, amount as int),
        *final(account) == account_after(
            *config,
            *old(account),
            Direction::BankToWallet,
            amount as int,
        ),
{
    transfer_with_fee(config, account, Direction::BankToWallet, amount)
}

/// The rows changed and the fee of a transfer on an account, or nothing where
/// the amount is negative or where the total or a new balance cannot be held.
pub open spec fn transfer_result(
    config: ConfigManager,
    account: Account,
    direction: Direction,
    amount: int,
) -> Option<(u64, i64)> {
    match planned(config, direction, amount) {
        None => None,
        Some(plan) => match account.transfer_outcome(plan) {
            UpdateOutcome::Applied => Some((1u64, plan.fee)),
            UpdateOutcome::Declined => Some((0u64, plan.fee)),
            UpdateOutcome::OutOfRange => None,
        },
    }
}

/// The account after a transfer of `amount` in the given direction.
pub open spec fn account_after(
    config: ConfigManager,
    account: Account,
    direction: Direction,
    amount: int,
) -> Account {
    match planned(config, direction, amount) {
        None => account,
        Some(plan) => account.after_transfer(plan),
    }
}

fn transfer_with_fee(
    config: &ConfigManager,
    account: &mut Account,
    direction: Direction,
    amount: i64,
) -> (done: Option<(u64, i64)>)
    ensures
        done == transfer_result(*config, *old(account), direction, amount as int),
        *final(account) == account_after(*config, *old(account), direction, amount as int),
{
    match plan_transfer(config, direction, amount) {
        None => None,
        Some(plan) => match account.apply_transfer(&plan) {
            UpdateOutcome::Applied => Some((1, plan.fee)),
            UpdateOutcome::Declined => Some((0, plan.fee)),
            UpdateOutcome::OutOfRange => None,
        },
    }
}

/// The conditional update keeps a valid account valid, whatever it is asked
/// to move: the source is debited only by what it covers, the destination is
/// credited only by an amount that is not negative, and an update that does
/// not apply changes nothing.
pub proof fn lemma_transfer_keeps_balances(account: Account, plan: TransferPlan)
    requires
        account.valid(),
    ensures
        account.after_transfer(plan).valid(),
        account.after_transfer(plan).is_bank_open == account.is_bank_open,
{
}

/// An update of a negative amount is declined and changes nothing, whatever
/// the balances.
pub proof fn lemma_negative_amount_is_declined(account: Account, plan: TransferPlan)
    requires
        plan.amount < 0,
    ensures
        account.transfer_outcome(plan) == UpdateOutcome::Declined,
        account.after_transfer(plan) == account,
{
}

/// A transfer with its fee keeps a valid account valid for every amount, in
/// either direction, and a negative amount has no plan and changes nothing.
pub proof fn lemma_transfer_with_fee_keeps_balances(
    config: ConfigManager,
    account: Account,
    direction: Direction,
    amount: int,
)
    requires
        account.valid(),
    ensures
        account_after(config, account, direction, amount).valid(),
        amount < 0 ==> planned(config, direction, amount) is None && account_after(
            config,
            account,
            direction,
            amount,
        ) == account,
{
}

/// Under a valid snapshot a planned transfer never makes money: the fee lies
/// between zero and the amount, the total is the amount plus the fee, and the
/// two balances together never go up.
pub proof fn lemma_planned_transfer_never_makes_money(
    config: ConfigManager,
    account: Account,
    direction: Direction,
    amount: int,
)
    requires
        config.valid(),
    ensures
        planned(config, direction, amount) matches Some(plan) ==> {
            &&& plan.amount == amount
            &&& 0 <= plan.fee <= plan.amount
            &&& plan.total_deducted == plan.amount + plan.fee
            &&& account.after_transfer(plan).wallet + account.after_transfer(plan).bank
                <= account.wallet + account.bank
        },
{
    if amount >= 0 {
        lemma_fee_within_amount(config, direction, amount);
    }
}

/// Of two identical transfers attempted one after the other on a balance that
/// covers one and not two, exactly the first applies: the source ends lower
/// by one total, the destination higher by one amount.
pub proof fn lemma_second_identical_transfer_is_declined(account: Account, plan: TransferPlan)
    requires
        account.valid(),
        account.is_bank_open,
        plan.amount >= 0,
        plan.total_deducted <= account.balance(plan.direction.source()) < 2 * plan.total_deducted,
        fits_i64(account.balance(plan.direction.destination()) + plan.amount),
    ensures
        account.transfer_outcome(plan) == UpdateOutcome::Applied,
        account.after_transfer(plan).transfer_outcome(plan) == UpdateOutcome::Declined,
        account.after_transfers(plan, 2) == account.after_transfer(plan),
        account.after_transfers(plan, 2).balance(plan.direction.source()) == account.balance(
            plan.direction.source(),
        ) - plan.total_deducted,
        account.after_transfers(plan, 2).balance(plan.direction.destination()) == account.balance(
            plan.direction.destination(),
        ) + plan.amount,
{
    reveal_with_fuel(Account::after_transfers, 3);
}

/// A transfer that applies takes exactly the fee out of the player's money:
/// the two balances together go down by the fee, and by nothing where the
/// transfer does not apply.
pub proof fn lemma_transfer_costs_the_fee(account: Account, plan: TransferPlan)
    requires
        plan.total_deducted == plan.amount + plan.fee,
    ensures
        account.after_transfer(plan).wallet + account.after_transfer(plan).bank == account.wallet
            + account.bank - if account.transfer_outcome(plan) == UpdateOutcome::Applied {
            plan.fee as int
        } else {
            0
        },
{
}

/// A transfer that storage declines or cannot store changes nothing.
pub proof fn lemma_declined_transfer_changes_nothing(account: Account, plan: TransferPlan)
    requires
        account.transfer_outcome(plan) != UpdateOutcome::Applied,
    ensures
        account.after_transfer(plan) == account,
{
}

/// A closed bank declines every transfer, in either direction and whatever
/// the balances.
pub proof fn lemma_closed_bank_declines(account: Account, plan: TransferPlan)
    requires
        !account.is_bank_open,
    ensures
        account.transfer_outcome(plan) == UpdateOutcome::Declined,
        account.after_transfer(plan) == account,
{
}

/// However often the same transfer is attempted, one attempt after another,
/// the source never goes below zero: what was deducted in all never exceeds
/// the balance that the source began with.
pub proof fn lemma_repeated_transfers_never_overdraw(
    account: Account,
    plan: TransferPlan,
    times: nat,
)
    requires
        account.balance(plan.direction.source()) >= 0,
    ensures
        account.after_transfers(plan, times).balance(plan.direction.source()) >= 0,
        account.balance(plan.direction.source()) - account.after_transfers(plan, times).balance(
            plan.direction.source(),
        ) <= account.balance(plan.direction.source()),
    decreases times,
{
    if times > 0 {
        lemma_repeated_transfers_never_overdraw(account, plan, (times - 1) as nat);
    }
}

/// Whatever transfers reach storage, and in whatever order storage takes
/// them, a valid account stays valid: concurrent
/// transfers cannot overdraw a store between them, because each update is
/// checked against the balances that the updates before it left.
pub proof fn lemma_transfers_in_any_order_keep_balances(account: Account, plans: Seq<TransferPlan>)
    requires
        account.valid(),
    ensures
        account.after_all(plans).valid(),
        account.after_all(plans).is_bank_open == account.is_bank_open,
    decreases plans.len(),
{
    if plans.len() > 0 {
        lemma_transfers_in_any_order_keep_balances(account, plans.drop_last());
        lemma_transfer_keeps_balances(account.after_all(plans.drop_last()), plans.last());
    }
}

/// Under a valid snapshot the fee of a non-negative amount lies between zero
/// and the amount, so the total deducted is at least the amount.
pub proof fn lemma_fee_within_amount(config: ConfigManager, direction: Direction, amount: int)
    requires
        config.valid(),
        amount >= 0,
    ensures
        0 <= direction_fee(config, direction, amount) <= amount,
{
    lemma_portion_bounds(amount, config.transfer_fee_rate_value());
    lemma_portion_bounds(amount, config.wallet_to_bank_fee_rate_value());
}

} // verus!
