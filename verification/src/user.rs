//! Player records and the transfer of money between wallet and bank.
//!
//! A transfer alternates decisions with storage work. The decisions are the
//! function `transfer_money`, from the state of a transfer and what storage
//! just answered to the next state and what to ask of storage next. The
//! caller performs each action and hands back the event. `transfer` does so
//! against an account in memory, and its contract says what a transfer comes
//! to as a whole.

use crate::account::{
    direction_of, plan_transfer, planned, Account, Direction, Store, TransferPlan, UpdateOutcome,
};
use crate::config::ConfigManager;
use crate::status::Failure;
use crate::text::{integer_text, push_integer};
use vstd::prelude::*;
use vstd::string::*;

verus! {

/// A player to register.
#[derive(Clone, Debug)]
pub struct User {
    pub player_uuid: String,
    pub player_name: String,
}

/// A player's account as storage holds it.
#[derive(Clone, Debug)]
pub struct UserResponse {
    pub id: i32,
    pub player_uuid: String,
    pub player_name: String,
    pub wallet: i64,
    pub bank: i64,
    pub is_bank_open: i8,
}

impl UserResponse {
    /// The balances and the open flag of the record; the bank is open where
    /// the stored flag is 1.
    pub fn account(&self) -> (account: Account)
        ensures
            account == (Account {
                wallet: self.wallet,
                bank: self.bank,
                is_bank_open: self.is_bank_open == 1,
            }),
    {
        Account { wallet: self.wallet, bank: self.bank, is_bank_open: self.is_bank_open == 1 }
    }
}

/// A request to move `amount` from the store named `from` to the one named
/// `to`.
#[derive(Clone, Debug)]
pub struct TransferRequest {
    pub from: String,
    pub to: String,
    pub amount: i64,
}

/// The reply to a transfer request.
#[derive(Clone, Debug)]
pub struct TransferResponse {
    pub success: bool,
    pub message: String,
    pub new_wallet: i64,
    pub new_bank: i64,
    pub fee_charged: i64,
    pub amount_transferred: i64,
}

/// How a transfer ended.
#[derive(Clone, Copy, Debug, PartialEq, Eq, Structural)]
pub enum TransferOutcome {
    /// The money moved; the balances are those read after the update.
    Completed { direction: Direction, amount: i64, fee: i64, new_wallet: i64, new_bank: i64 },
    /// The pair of stores is neither wallet to bank nor bank to wallet.
    InvalidDirection { amount: i64 },
    /// The amount is negative.
    InvalidAmount { amount: i64 },
    /// The update changed nothing, and the bank is closed.
    BankClosed { amount: i64, fee: i64 },
    /// The update changed nothing, and the bank is open: the source does not
    /// cover the amount with its fee.
    InsufficientFunds { store: Store, available: i64, required: i64, amount: i64, fee: i64 },
    /// The update changed nothing, and there is no such account: the
    /// transfer is reported as not found.
    UserNotFound { amount: i64, fee: i64 },
    /// Storage failed, or an amount left the range that can be stored.
    Failed,
}

impl TransferOutcome {
    /// Whether the money moved.
    pub open spec fn succeeded(self) -> bool {
        self is Completed
    }

    /// The text that tells the player how the transfer ended.
    pub open spec fn message_text(self) -> Seq<char> {
        match self {
            TransferOutcome::Completed { direction, amount, fee, .. } => "Transferred "@
                + integer_text(amount as int) + " from "@ + direction.source().name() + " to "@
                + direction.destination().name() + " (fee: "@ + integer_text(fee as int) + ")"@,
            TransferOutcome::InvalidDirection { .. } =>
                "Invalid transfer direction. Use 'wallet' or 'bank'"@,
            TransferOutcome::InvalidAmount { .. } => "Amount must not be negative"@,
            TransferOutcome::BankClosed { .. } =>
                "Bank is not open! Visit a bank to access your account"@,
            TransferOutcome::InsufficientFunds { store, available, required, .. } =>
                "Insufficient funds in "@ + store.name() + " (have: "@ + integer_text(
                    available as int,
                ) + ", need: "@ + integer_text(required as int) + ")"@,
            TransferOutcome::UserNotFound { .. } => "User not found"@,
            TransferOutcome::Failed => "Internal error"@,
        }
    }

    /// The balances that the reply reports: the new ones after a completed
    /// transfer, zero otherwise.
    pub open spec fn reported_balances(self) -> (int, int) {
        match self {
            TransferOutcome::Completed { new_wallet, new_bank, .. } => (
                new_wallet as int,
                new_bank as int,
            ),
            _ => (0, 0),
        }
    }

    /// The fee that the reply reports: the fee computed for the transfer, and
    /// zero where the direction or the amount was invalid.
    pub open spec fn reported_fee(self) -> int {
        match self {
            TransferOutcome::Completed { fee, .. } => fee as int,
            TransferOutcome::BankClosed { fee, .. } => fee as int,
            TransferOutcome::InsufficientFunds { fee, .. } => fee as int,
            TransferOutcome::UserNotFound { fee, .. } => fee as int,
            _ => 0,
        }
    }

    /// The amount that the request named.
    pub open spec fn requested_amount(self) -> int {
        match self {
            TransferOutcome::Completed { amount, .. } => amount as int,
            TransferOutcome::InvalidDirection { amount } => amount as int,
            TransferOutcome::InvalidAmount { amount } => amount as int,
            TransferOutcome::BankClosed { amount, .. } => amount as int,
            TransferOutcome::InsufficientFunds { amount, .. } => amount as int,
            TransferOutcome::UserNotFound { amount, .. } => amount as int,
            TransferOutcome::Failed => 0,
        }
    }

    /// The text that tells the player how the transfer ended.
    pub fn message(&self) -> (text: String)
        ensures
            text@ == self.message_text(),
    {
        match self {
            TransferOutcome::Completed { direction, amount, fee, .. } => {
                let mut text = String::from_str("Transferred ");
                push_integer(&mut text, *amount);
                text.append(" from ");
                text.append(direction.from_store().as_str());
                text.append(" to ");
                text.append(direction.to_store().as_str());
                text.append(" (fee: ");
                push_integer(&mut text, *fee);
                text.append(")");
                text
            },
            TransferOutcome::InvalidDirection { .. } => String::from_str(
                "Invalid transfer direction. Use 'wallet' or 'bank'",
            ),
            TransferOutcome::InvalidAmount { .. } => String::from_str(
                "Amount must not be negative",
            ),
            TransferOutcome::BankClosed { .. } => String::from_str(
                "Bank is not open! Visit a bank to access your account",
            ),
            TransferOutcome::InsufficientFunds { store, available, required, .. } => {
                let mut text = String::from_str("Insufficient funds in ");
                text.append(store.as_str());
                text.append(" (have: ");
                push_integer(&mut text, *available);
                text.append(", need: ");
                push_integer(&mut text, *required);
                text.append(")");
                text
            },
            TransferOutcome::UserNotFound { .. } => String::from_str("User not found"),
            TransferOutcome::Failed => String::from_str("Internal error"),
        }
    }

    /// The failure that the outcome is reported as, where it is one: a
    /// missing account as `NotFound`, a failed transfer as `Internal`.
    pub open spec fn failure(self) -> Option<Failure> {
        match self {
            TransferOutcome::UserNotFound { .. } => Some(Failure::NotFound),
            TransferOutcome::Failed => Some(Failure::Internal),
            _ => None,
        }
    }

    /// The reply that reports the outcome. A failure has no reply of its own:
    /// a missing account is reported as `NotFound` and a failed transfer as
    /// `Internal`. Every other outcome, a rejection too, is an ordinary
    /// reply.
    pub fn response(&self) -> (reply: Result<TransferResponse, Failure>)
        ensures
            reply is Err <==> self.failure() is Some,
            reply matches Err(failure) ==> self.failure() == Some(failure),
            reply matches Ok(r) ==> {
                &&& r.success == self.succeeded()
                &&& r.message@ == self.message_text()
                &&& (r.new_wallet as int, r.new_bank as int) == self.reported_balances()
                &&& r.fee_charged == self.reported_fee()
                &&& r.amount_transferred == self.requested_amount()
            },
    {
        let message = self.message();
        match self {
            TransferOutcome::Completed { amount, fee, new_wallet, new_bank, .. } => Ok(
                TransferResponse {
                    success: true,
                    message,
                    new_wallet: *new_wallet,
                    new_bank: *new_bank,
                    fee_charged: *fee,
                    amount_transferred: *amount,
                },
            ),
            TransferOutcome::InvalidDirection { amount } => Ok(
                TransferResponse {
                    success: false,
                    message,
                    new_wallet: 0,
                    new_bank: 0,
                    fee_charged: 0,
                    amount_transferred: *amount,
                },
            ),
            TransferOutcome::InvalidAmount { amount } => Ok(
                TransferResponse {
                    success: false,
                    message,
                    new_wallet: 0,
                    new_bank: 0,
                    fee_charged: 0,
                    amount_transferred: *amount,
                },
            ),
            TransferOutcome::BankClosed { amount, fee } => Ok(
                TransferResponse {
                    success: false,
                    message,
                    new_wallet: 0,
                    new_bank: 0,
                    fee_charged: *fee,
                    amount_transferred: *amount,
                },
            ),
            TransferOutcome::InsufficientFunds { amount, fee, .. } => Ok(
                TransferResponse {
                    success: false,
                    message,
                    new_wallet: 0,
                    new_bank: 0,
                    fee_charged: *fee,
                    amount_transferred: *amount,
                },
            ),
            TransferOutcome::UserNotFound { .. } => Err(Failure::NotFound),
            TransferOutcome::Failed => Err(Failure::Internal),
        }
    }
}

/// Why an update that changed no row changed none, as far as the account
/// read afterwards tells: the bank is closed, or the source does not cover
/// the total, or there is no account.
pub open spec fn decline_reason(account: Option<Account>, plan: TransferPlan) -> TransferOutcome {
    match account {
        Some(a) => if !a.is_bank_open {
            TransferOutcome::BankClosed { amount: plan.amount, fee: plan.fee }
        } else {
            TransferOutcome::InsufficientFunds {
                store: plan.direction.source(),
                available: a.balance(plan.direction.source()) as i64,
                required: plan.total_deducted,
                amount: plan.amount,
                fee: plan.fee,
            }
        },
        None => TransferOutcome::UserNotFound { amount: plan.amount, fee: plan.fee },
    }
}

/// Where a transfer stands.
#[derive(Clone, Copy, Debug, PartialEq, Eq, Structural)]
pub enum TransferState {
    /// The direction is valid; the configuration is being loaded.
    AwaitingConfig { direction: Direction, amount: i64 },
    /// The conditional update is under way.
    AwaitingUpdate { plan: TransferPlan },
    /// The update changed nothing; the account is being read to say why.
    AwaitingDeclineReason { plan: TransferPlan },
    /// The update applied; the account is being read for its new balances.
    AwaitingBalances { plan: TransferPlan },
    /// The reply was given.
    Done,
}

/// What storage answered.
#[derive(Clone, Copy, Debug, PartialEq, Eq)]
pub enum TransferEvent {
    /// The configuration was loaded.
    ConfigLoaded(ConfigManager),
    /// The conditional update ran and changed this many rows.
    RowsAffected(u64),
    /// The account was read; there is none where no row has the player.
    AccountRead(Option<Account>),
    /// Storage failed.
    StorageFailed,
}

/// What the transfer asks for next.
#[derive(Clone, Copy, Debug, PartialEq, Eq, Structural)]
pub enum TransferAction {
    /// Load the configuration.
    LoadConfig,
    /// Run the conditional update: debit the source by the total and credit
    /// the destination by the amount, if the bank is open and the source
    /// covers the total.
    Update(TransferPlan),
    /// Read the player's account.
    ReadAccount,
    /// Give this reply; the transfer is over.
    Reply(TransferOutcome),
}

/// The number of storage operations that a transfer in this state can still
/// ask for.
pub open spec fn transfer_steps_left(state: TransferState) -> nat {
    match state {
        TransferState::AwaitingConfig { .. } => 3,
        TransferState::AwaitingUpdate { .. } => 2,
        TransferState::AwaitingDeclineReason { .. } => 1,
        TransferState::AwaitingBalances { .. } => 1,
        TransferState::Done => 0,
    }
}

/// The first step of a transfer: an invalid pair of stores is rejected at
/// once, then a negative amount, and any other request asks for the
/// configuration.
pub open spec fn transfer_begun(from: Seq<char>, to: Seq<char>, amount: i64) -> (
    TransferState,
    TransferAction,
) {
    match direction_of(from, to) {
        Some(direction) => if amount < 0 {
            (TransferState::Done, TransferAction::Reply(TransferOutcome::InvalidAmount { amount }))
        } else {
            (TransferState::AwaitingConfig { direction, amount }, TransferAction::LoadConfig)
        },
        None => (
            TransferState::Done,
            TransferAction::Reply(TransferOutcome::InvalidDirection { amount }),
        ),
    }
}

/// The step of a transfer: the next state and action, given the state and
/// what storage answered.
///
/// With the configuration loaded, the fee and the total are computed and the
/// conditional update is asked for. No row changed: the account is read to
/// say why, and a missing account ends the transfer as not found. A row
/// changed: the account is read for the reply, and the transfer fails if it
/// cannot be read. Any other failure of storage, a total that cannot be
/// held, and an event that the state does not await end the transfer as
/// failed.
pub open spec fn transfer_step(state: TransferState, event: TransferEvent) -> (
    TransferState,
    TransferAction,
) {
    let failed = (TransferState::Done, TransferAction::Reply(TransferOutcome::Failed));
    match (state, event) {
        (
            TransferState::AwaitingConfig { direction, amount },
            TransferEvent::ConfigLoaded(config),
        ) => match planned(config, direction, amount as int) {
            Some(plan) => (TransferState::AwaitingUpdate { plan }, TransferAction::Update(plan)),
            None => failed,
        },
        (TransferState::AwaitingUpdate { plan }, TransferEvent::RowsAffected(rows)) => if rows
            == 0 {
            (TransferState::AwaitingDeclineReason { plan }, TransferAction::ReadAccount)
        } else {
            (TransferState::AwaitingBalances { plan }, TransferAction::ReadAccount)
        },
        (TransferState::AwaitingDeclineReason { plan }, TransferEvent::AccountRead(account)) => (
            TransferState::Done,
            TransferAction::Reply(decline_reason(account, plan)),
        ),
        (TransferState::AwaitingBalances { plan }, TransferEvent::AccountRead(Some(account))) => (
            TransferState::Done,
            TransferAction::Reply(
                TransferOutcome::Completed {
                    direction: plan.direction,
                    amount: plan.amount,
                    fee: plan.fee,
                    new_wallet: account.wallet,
                    new_bank: account.bank,
                },
            ),
        ),
        _ => failed,
    }
}

/// Starts a transfer.
pub fn begin_transfer(request: &TransferRequest) -> (first: (TransferState, TransferAction))
    ensures
        first == transfer_begun(request.from@, request.to@, request.amount),
{
    match Direction::parse(request.from.as_str(), request.to.as_str()) {
        Some(direction) => {
            if request.amount < 0 {
                (
                    TransferState::Done,
                    TransferAction::Reply(
                        TransferOutcome::InvalidAmount { amount: request.amount },
                    ),
                )
            } else {
                (
                    TransferState::AwaitingConfig { direction, amount: request.amount },
                    TransferAction::LoadConfig,
                )
            }
        },
        None => (
            TransferState::Done,
            TransferAction::Reply(TransferOutcome::InvalidDirection { amount: request.amount }),
        ),
    }
}

/// Takes a transfer one step on: from the state and what storage answered to
/// the next state and what to do next.
pub fn transfer_money(state: TransferState, event: TransferEvent) -> (next: (
    TransferState,
    TransferAction,
))
    ensures
        next == transfer_step(state, event),
{
    match (state, event) {
        (
            TransferState::AwaitingConfig { direction, amount },
            TransferEvent::ConfigLoaded(config),
        ) => match plan_transfer(&config, direction, amount) {
            Some(plan) => (TransferState::AwaitingUpdate { plan }, TransferAction::Update(plan)),
            None => (TransferState::Done, TransferAction::Reply(TransferOutcome::Failed)),
        },
        (TransferState::AwaitingUpdate { plan }, TransferEvent::RowsAffected(rows)) => {
            if rows == 0 {
                (TransferState::AwaitingDeclineReason { plan }, TransferAction::ReadAccount)
            } else {
                (TransferState::AwaitingBalances { plan }, TransferAction::ReadAccount)
            }
        },
        (TransferState::AwaitingDeclineReason { plan }, TransferEvent::AccountRead(account)) => (
            TransferState::Done,
            TransferAction::Reply(classify_decline(account, &plan)),
        ),
        (TransferState::AwaitingBalances { plan }, TransferEvent::AccountRead(Some(account))) => (
            TransferState::Done,
            TransferAction::Reply(
                TransferOutcome::Completed {
                    direction: plan.direction,
                    amount: plan.amount,
                    fee: plan.fee,
                    new_wallet: account.wallet,
                    new_bank: account.bank,
                },
            ),
        ),
        _ => (TransferState::Done, TransferAction::Reply(TransferOutcome::Failed)),
    }
}

/// Says why an update changed no row, from the account read afterwards.
pub fn classify_decline(account: Option<Account>, plan: &TransferPlan) -> (reason: TransferOutcome)
    ensures
        reason == decline_reason(account, *plan),
{
    match account {
        Some(a) => {
            if !a.is_bank_open {
                TransferOutcome::BankClosed { amount: plan.amount, fee: plan.fee }
            } else {
                TransferOutcome::InsufficientFunds {
                    store: plan.direction.from_store(),
                    available: a.balance_of(plan.direction.from_store()),
                    required: plan.total_deducted,
                    amount: plan.amount,
                    fee: plan.fee,
                }
            }
        },
        None => TransferOutcome::UserNotFound { amount: plan.amount, fee: plan.fee },
    }
}

/// How a transfer on an existing account ends, with the account it leaves.
///
/// An invalid pair of stores and a negative amount are rejected and a total
/// that cannot be held fails, all without touching the account. Otherwise
/// the conditional
/// update decides: applied, the transfer completes with the new balances;
/// declined, it is rejected for a closed bank or for insufficient funds and
/// the account stays as it was; out of range, it fails and the account stays
/// as it was.
pub open spec fn transfer_result(
    config: ConfigManager,
    account: Account,
    from: Seq<char>,
    to: Seq<char>,
    amount: i64,
) -> (TransferOutcome, Account) {
    match direction_of(from, to) {
        None => (TransferOutcome::InvalidDirection { amount }, account),
        Some(direction) => if amount < 0 {
            (TransferOutcome::InvalidAmount { amount }, account)
        } else {
            match planned(config, direction, amount as int) {
                None => (TransferOutcome::Failed, account),
                Some(plan) => match account.transfer_outcome(plan) {
                    UpdateOutcome::Applied => (
                        TransferOutcome::Completed {
                            direction,
                            amount,
                            fee: plan.fee,
                            new_wallet: account.after_transfer(plan).wallet,
                            new_bank: account.after_transfer(plan).bank,
                        },
                        account.after_transfer(plan),
                    ),
                    UpdateOutcome::Declined => (decline_reason(Some(account), plan), account),
                    UpdateOutcome::OutOfRange => (TransferOutcome::Failed, account),
                },
            }
        },
    }
}

/// What ties a transfer under way on an account in memory to its result.
spec fn transfer_on_course(
    state: TransferState,
    action: TransferAction,
    now: Account,
    config: ConfigManager,
    before: Account,
    from: Seq<char>,
    to: Seq<char>,
    amount: i64,
) -> bool {
    let result = transfer_result(config, before, from, to, amount);
    match action {
        TransferAction::Reply(outcome) => outcome == result.0 && now == result.1,
        TransferAction::LoadConfig => {
            &&& now == before
            &&& amount >= 0
            &&& direction_of(from, to) matches Some(direction)
            &&& state == (TransferState::AwaitingConfig { direction, amount })
        },
        TransferAction::Update(plan) => {
            &&& now == before
            &&& direction_of(from, to) matches Some(direction)
            &&& planned(config, direction, amount as int) == Some(plan)
            &&& state == (TransferState::AwaitingUpdate { plan })
        },
        TransferAction::ReadAccount => {
            &&& direction_of(from, to) matches Some(direction)
            &&& planned(config, direction, amount as int) matches Some(plan)
            &&& {
                ||| {
                    &&& state == (TransferState::AwaitingDeclineReason { plan })
                    &&& before.transfer_outcome(plan) == UpdateOutcome::Declined
                    &&& now == before
                }
                ||| {
                    &&& state == (TransferState::AwaitingBalances { plan })
                    &&& before.transfer_outcome(plan) == UpdateOutcome::Applied
                    &&& now == before.after_transfer(plan)
                }
            }
        },
    }
}

/// Carries out a transfer on an account in memory: every action that the
/// transfer asks for is performed on `account`, the conditional update as
/// `Account::apply_transfer` does it.
pub fn transfer(config: &ConfigManager, account: &mut Account, request: &TransferRequest) -> (outcome:
    TransferOutcome)
    ensures
        (outcome, *final(account)) == transfer_result(
            *config,
            *old(account),
            request.from@,
            request.to@,
            request.amount,
        ),
{
    let (mut state, mut action) = begin_transfer(request);
    loop
        invariant
            transfer_on_course(
                state,
                action,
                *account,
                *config,
                *old(account),
                request.from@,
                request.to@,
                request.amount,
            ),
        decreases transfer_steps_left(state),
    {
        let event = match action {
            TransferAction::LoadConfig => TransferEvent::ConfigLoaded(*config),
            TransferAction::Update(plan) => match account.apply_transfer(&plan) {
                UpdateOutcome::Applied => TransferEvent::RowsAffected(1),
                UpdateOutcome::Declined => TransferEvent::RowsAffected(0),
                UpdateOutcome::OutOfRange => TransferEvent::StorageFailed,
            },
            TransferAction::ReadAccount => TransferEvent::AccountRead(Some(*account)),
            TransferAction::Reply(outcome) => {
                return outcome;
            },
        };
        let (next_state, next_action) = transfer_money(state, event);
        state = next_state;
        action = next_action;
    }
}

/// An invalid pair of stores is rejected before storage is asked for
/// anything.
pub proof fn lemma_invalid_direction_touches_nothing(from: Seq<char>, to: Seq<char>, amount: i64)
    requires
        direction_of(from, to) is None,
    ensures
        transfer_begun(from, to, amount) == (
            TransferState::Done,
            TransferAction::Reply(TransferOutcome::InvalidDirection { amount }),
        ),
{
}

/// A negative amount is rejected before storage is asked for anything:
/// the reply is an ordinary rejection that charges no fee.
pub proof fn lemma_negative_amount_touches_nothing(from: Seq<char>, to: Seq<char>, amount: i64)
    requires
        amount < 0,
    ensures
        transfer_begun(from, to, amount).0 is Done,
        transfer_begun(from, to, amount).1 matches TransferAction::Reply(outcome) && {
            &&& !outcome.succeeded()
            &&& outcome.failure() is None
            &&& outcome.reported_fee() == 0
        },
        direction_of(from, to) is Some ==> transfer_begun(from, to, amount).1
            == TransferAction::Reply(TransferOutcome::InvalidAmount { amount }),
{
}

/// Each step leaves fewer storage operations to come, and a step that
/// replies ends the transfer: no transfer asks storage for more than three
/// operations, and none asks for anything after its reply.
pub proof fn lemma_transfer_advances(state: TransferState, event: TransferEvent)
    ensures
        state !is Done ==> transfer_steps_left(transfer_step(state, event).0)
            < transfer_steps_left(state),
        transfer_step(state, event).1 is Reply <==> transfer_step(state, event).0 is Done,
        state is Done ==> transfer_step(state, event) == (
            TransferState::Done,
            TransferAction::Reply(TransferOutcome::Failed),
        ),
{
}

/// The update that a transfer asks for never moves a negative amount, and
/// it deducts exactly the amount plus the fee that the loaded configuration
/// sets for the direction.
pub proof fn lemma_update_charges_amount_plus_fee(
    direction: Direction,
    amount: i64,
    config: ConfigManager,
)
    ensures
        transfer_step(
            TransferState::AwaitingConfig { direction, amount },
            TransferEvent::ConfigLoaded(config),
        ).1 matches TransferAction::Update(plan) ==> {
            &&& plan.direction == direction
            &&& plan.amount == amount
            &&& plan.amount >= 0
            &&& plan.fee == crate::account::direction_fee(config, direction, amount as int)
            &&& plan.total_deducted == plan.amount + plan.fee
        },
{
}

/// A transfer leaves a valid account valid, whatever was asked for and
/// however it ends, and it leaves the account untouched unless it completes.
pub proof fn lemma_transfer_keeps_account_valid(
    config: ConfigManager,
    account: Account,
    from: Seq<char>,
    to: Seq<char>,
    amount: i64,
)
    requires
        account.valid(),
    ensures
        transfer_result(config, account, from, to, amount).1.valid(),
        !transfer_result(config, account, from, to, amount).0.succeeded() ==> transfer_result(
            config,
            account,
            from,
            to,
            amount,
        ).1 == account,
{
}

/// Of two identical transfers carried out one after the other on a source
/// that covers one and not two, exactly the first completes: the source ends
/// lower by the amount and its fee, the destination higher by the amount.
pub proof fn lemma_one_of_two_identical_transfers_completes(
    config: ConfigManager,
    account: Account,
    from: Seq<char>,
    to: Seq<char>,
    amount: i64,
)
    requires
        account.valid(),
        account.is_bank_open,
        amount >= 0,
        direction_of(from, to) matches Some(direction) && planned(
            config,
            direction,
            amount as int,
        ) matches Some(plan) && plan.total_deducted <= account.balance(direction.source()) < 2
            * plan.total_deducted && crate::fixed::fits_i64(
            account.balance(direction.destination()) + amount,
        ),
    ensures
        ({
            let first = transfer_result(config, account, from, to, amount);
            let second = transfer_result(config, first.1, from, to, amount);
            let direction = direction_of(from, to).unwrap();
            let plan = planned(config, direction, amount as int).unwrap();
            &&& first.0.succeeded()
            &&& second.0 is InsufficientFunds
            &&& second.1 == first.1
            &&& second.1.balance(direction.source()) == account.balance(direction.source())
                - plan.total_deducted
            &&& second.1.balance(direction.destination()) == account.balance(
                direction.destination(),
            ) + amount
            &&& second.1.valid()
        }),
{
}

/// With the bank closed, a transfer between wallet and bank is rejected as
/// such, whatever the balances, and changes nothing, unless its total cannot
/// be held at all.
pub proof fn lemma_closed_bank_is_reported(
    config: ConfigManager,
    account: Account,
    from: Seq<char>,
    to: Seq<char>,
    amount: i64,
)
    requires
        !account.is_bank_open,
        direction_of(from, to) matches Some(direction) && planned(
            config,
            direction,
            amount as int,
        ) is Some,
    ensures
        transfer_result(config, account, from, to, amount).0 is BankClosed,
        transfer_result(config, account, from, to, amount).1 == account,
{
}

} // verus!
