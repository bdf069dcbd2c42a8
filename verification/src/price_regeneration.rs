//! The periodic decay of all prices, and the service that runs it.
//!
//! Independently of any trade, every price moves back toward its base at a
//! fixed period. The service alternates waiting, running the decay and
//! waiting again; `PriceRegenerationService::step` decides what comes next,
//! and the caller waits and runs the decay against storage. A run that fails
//! does not end the service; only a cancellation does.

use crate::market::MarketItem;
use crate::pricing::{regenerate_price, repriced_after_decay, ItemPrice};
use vstd::prelude::*;

verus! {

/// The time between two periodic decays of all prices, in seconds: three
/// hours.
pub const DECAY_PERIOD_SECONDS: u64 = 10_800;

/// Whether every item of a catalogue can be repriced by one decay.
pub open spec fn all_decayable(items: Seq<MarketItem>) -> bool {
    forall|i: int| 0 <= i < items.len() ==> repriced_after_decay(#[trigger] items[i].price_view())
        is Some
}

/// Applies one periodic decay to every item of the catalogue, all of them or
/// none: each multiplier moves a tenth of the way toward 1, capped at 3, and
/// both prices are derived anew. The result is the number of items repriced;
/// it is nothing, and the catalogue unchanged, where some item's new price
/// cannot be held.
pub fn regenerate_prices(items: &mut Vec<MarketItem>) -> (repriced: Option<u64>)
    ensures
        repriced is Some <==> all_decayable(old(items)@),
        repriced matches Some(count) ==> {
            &&& count == old(items)@.len()
            &&& final(items)@.len() == old(items)@.len()
            &&& forall|i: int|
                0 <= i < old(items)@.len() ==> #[trigger] final(items)@[i] == old(items)@[i].priced(
                    repriced_after_decay(old(items)@[i].price_view()).unwrap(),
                )
        },
        repriced is None ==> final(items)@ == old(items)@,
{
    let mut prices: Vec<ItemPrice> = Vec::new();
    let mut i: usize = 0;
    while i < items.len()
        invariant
            i <= items.len(),
            items@ == old(items)@,
            prices@.len() == i,
            forall|j: int|
                0 <= j < i ==> repriced_after_decay(#[trigger] items@[j].price_view()) == Some(
                    prices@[j],
                ),
        decreases items.len() - i,
    {
        match regenerate_price(&items[i].price()) {
            Some(price) => {
                prices.push(price);
            },
            None => {
                return None;
            },
        }
        i += 1;
    }
    let mut k: usize = 0;
    while k < items.len()
        invariant
            k <= items.len(),
            items@.len() == old(items)@.len(),
            prices@.len() == items@.len(),
            forall|j: int|
                0 <= j < old(items)@.len() ==> repriced_after_decay(
                    #[trigger] old(items)@[j].price_view(),
                ) == Some(prices@[j]),
            forall|j: int| 0 <= j < k ==> #[trigger] items@[j] == old(items)@[j].priced(prices@[j]),
            forall|j: int| k <= j < items@.len() ==> #[trigger] items@[j] == old(items)@[j],
        decreases items.len() - k,
    {
        let price = prices[k];
        items[k].set_price(&price);
        k += 1;
    }
    Some(items.len() as u64)
}

/// Where the service stands.
#[derive(Clone, Copy, Debug, PartialEq, Eq, Structural)]
pub enum ServiceState {
    /// The service was made and not yet started.
    Created,
    /// The service waits for the next tick of its timer.
    Waiting,
    /// A decay is running.
    Regenerating,
    /// The service was cancelled, or was handed an event that it did not
    /// await.
    Stopped,
}

/// What happened while the service waited or ran.
#[derive(Clone, Copy, Debug, PartialEq, Eq, Structural)]
pub enum ServiceEvent {
    /// The timer ticked.
    Tick,
    /// The decay ran and repriced this many items.
    Regenerated { items: u64 },
    /// The decay failed; nothing was repriced.
    RegenerationFailed,
    /// The service is to end.
    Cancelled,
}

/// What the service asks for next.
#[derive(Clone, Copy, Debug, PartialEq, Eq, Structural)]
pub enum ServiceAction {
    /// Wait for the next tick of a timer of this period.
    AwaitTick { period_seconds: u64 },
    /// Run one decay over the whole catalogue.
    Regenerate,
    /// End the service.
    Stop,
}

/// The step of the service: a tick starts a decay, the end of a decay,
/// whether it succeeded or failed, goes back to waiting, a cancellation ends
/// the service, and so does any event that the state does not await.
pub open spec fn service_step(state: ServiceState, event: ServiceEvent) -> (
    ServiceState,
    ServiceAction,
) {
    let waiting = (
        ServiceState::Waiting,
        ServiceAction::AwaitTick { period_seconds: DECAY_PERIOD_SECONDS },
    );
    match (state, event) {
        (ServiceState::Waiting, ServiceEvent::Tick) => (
            ServiceState::Regenerating,
            ServiceAction::Regenerate,
        ),
        (ServiceState::Regenerating, ServiceEvent::Regenerated { .. }) => waiting,
        (ServiceState::Regenerating, ServiceEvent::RegenerationFailed) => waiting,
        _ => (ServiceState::Stopped, ServiceAction::Stop),
    }
}

/// The state and first action of a service that is started: a new service
/// waits for its first tick, a service under way goes on where it stands, and
/// a stopped one stays stopped.
pub open spec fn service_started(state: ServiceState) -> (ServiceState, ServiceAction) {
    match state {
        ServiceState::Created => (
            ServiceState::Waiting,
            ServiceAction::AwaitTick { period_seconds: DECAY_PERIOD_SECONDS },
        ),
        ServiceState::Waiting => (
            ServiceState::Waiting,
            ServiceAction::AwaitTick { period_seconds: DECAY_PERIOD_SECONDS },
        ),
        ServiceState::Regenerating => (ServiceState::Regenerating, ServiceAction::Regenerate),
        ServiceState::Stopped => (ServiceState::Stopped, ServiceAction::Stop),
    }
}

/// The service that decays all prices at a fixed period.
#[derive(Clone, Copy, Debug, PartialEq, Eq, Structural)]
pub struct PriceRegenerationService {
    pub state: ServiceState,
}

impl PriceRegenerationService {
    /// A service that was not yet started.
    pub fn new() -> (service: Self)
        ensures
            service.state == ServiceState::Created,
    {
        PriceRegenerationService { state: ServiceState::Created }
    }

    /// Starts the service: it waits for the first tick of its timer. A
    /// service that was started before goes on where it stands, and one that
    /// was stopped stays stopped.
    pub fn start(&mut self) -> (action: ServiceAction)
        ensures
            (final(self).state, action) == service_started(old(self).state),
    {
        match self.state {
            ServiceState::Created => {
                self.state = ServiceState::Waiting;
                ServiceAction::AwaitTick { period_seconds: DECAY_PERIOD_SECONDS }
            },
            ServiceState::Waiting => ServiceAction::AwaitTick {
                period_seconds: DECAY_PERIOD_SECONDS,
            },
            ServiceState::Regenerating => ServiceAction::Regenerate,
            ServiceState::Stopped => ServiceAction::Stop,
        }
    }

    /// Takes the service one step on.
    pub fn step(&mut self, event: ServiceEvent) -> (action: ServiceAction)
        ensures
            (final(self).state, action) == service_step(old(self).state, event),
    {
        let (state, action) = match (self.state, event) {
            (ServiceState::Waiting, ServiceEvent::Tick) => (
                ServiceState::Regenerating,
                ServiceAction::Regenerate,
            ),
            (ServiceState::Regenerating, ServiceEvent::Regenerated { .. }) => (
                ServiceState::Waiting,
                ServiceAction::AwaitTick { period_seconds: DECAY_PERIOD_SECONDS },
            ),
            (ServiceState::Regenerating, ServiceEvent::RegenerationFailed) => (
                ServiceState::Waiting,
                ServiceAction::AwaitTick { period_seconds: DECAY_PERIOD_SECONDS },
            ),
            _ => (ServiceState::Stopped, ServiceAction::Stop),
        };
        self.state = state;
        action
    }
}

/// A decay is asked for only in answer to a tick, and every decay that ends,
/// well or badly, is followed by a wait of a full period: a failed run does
/// not end the service, and no two runs follow each other without a tick
/// between them.
pub proof fn lemma_service_alternates(state: ServiceState, event: ServiceEvent)
    ensures
        service_step(state, event).1 == ServiceAction::Regenerate <==> state
            == ServiceState::Waiting && event == ServiceEvent::Tick,
        state == ServiceState::Regenerating && event != ServiceEvent::Tick && event
            != ServiceEvent::Cancelled ==> service_step(state, event) == (
            ServiceState::Waiting,
            ServiceAction::AwaitTick { period_seconds: DECAY_PERIOD_SECONDS },
        ),
{
}

/// A cancellation ends the service in whatever state it is, and a service
/// that has stopped asks for nothing more.
pub proof fn lemma_service_stops_for_good(state: ServiceState, event: ServiceEvent)
    ensures
        service_step(state, ServiceEvent::Cancelled) == (
            ServiceState::Stopped,
            ServiceAction::Stop,
        ),
        state == ServiceState::Stopped ==> service_step(state, event) == (
            ServiceState::Stopped,
            ServiceAction::Stop,
        ),
        service_step(state, event).1 == ServiceAction::Stop <==> service_step(state, event).0
            == ServiceState::Stopped,
{
}

} // verus!
