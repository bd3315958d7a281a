//! The controller of one widget's subscription: it decides when to connect
//! anew, takes in what the connection delivers and keeps the bounded history.
//!
//! The controller opens no connection itself. Once per tick its owner hands
//! it the messages that have arrived, asks it whether a connection is due,
//! makes the attempt and reports how it went. A connection that was made is
//! handed over to the controller as a whole, whatever it is made of: the
//! controller keeps it beside the endpoint it belongs to and lets go of it
//! when another takes its place.

use crate::buffer::clamped_capacity;
use crate::buffer::evict;
use crate::buffer::lemma_eviction_composes;
use crate::buffer::retained;
use crate::buffer::EventBuffer;
use crate::buffer::DEFAULT_CAPACITY;
use crate::buffer::MAX_CAPACITY;
use crate::buffer::MIN_CAPACITY;
use crate::endpoint::endpoint_address;
use crate::endpoint::lemma_base_ignores_subscription;
use crate::endpoint::same_base;
use crate::endpoint::same_base_address;
use crate::endpoint::try_websocket_url;
use crate::endpoint::url_address;
use crate::endpoint::Address;
use crate::event::decode_message;
use crate::event::decoding_message;
use crate::event::DecodeError;
use crate::event::Event;
use crate::event::Message;
use crate::sequence::reversed;
use url::Url;
use vstd::prelude::*;

verus! {

/// Why a subscription is not what its widget asks for.
#[derive(Debug, PartialEq, Eq)]
pub enum SubscriptionError {
    /// The base address cannot serve as a base, so no attempt was made.
    InvalidBase,
    /// The transport could not be initiated. Holds what it said.
    Connect(String),
}

/// The state of a controller whose connections are of the type `L`.
pub struct ControllerView<L> {
    /// The parts of the base address.
    pub base: Address,
    /// The query text.
    pub query: Seq<char>,
    /// The capacity of the history.
    pub capacity: usize,
    /// The events received on the live subscription, oldest first.
    pub events: Seq<Event>,
    /// The messages of the live subscription that gave no event, oldest
    /// first.
    pub failures: Seq<DecodeError>,
    /// The live subscription, or `None` while disconnected: the parts of
    /// its endpoint and its connection.
    pub subscription: Option<(Address, L)>,
    /// What went wrong with the latest attempt, if anything.
    pub error: Option<SubscriptionError>,
}

/// The events among `outcomes`, in their order.
pub open spec fn successes<T, E>(outcomes: Seq<Result<T, E>>) -> Seq<T>
    decreases outcomes.len(),
{
    if outcomes.len() == 0 {
        Seq::empty()
    } else {
        match outcomes.last() {
            Ok(value) => successes(outcomes.drop_last()).push(value),
            Err(_) => successes(outcomes.drop_last()),
        }
    }
}

/// The failures among `outcomes`, in their order.
pub open spec fn failures<T, E>(outcomes: Seq<Result<T, E>>) -> Seq<E>
    decreases outcomes.len(),
{
    if outcomes.len() == 0 {
        Seq::empty()
    } else {
        match outcomes.last() {
            Ok(_) => failures(outcomes.drop_last()),
            Err(error) => failures(outcomes.drop_last()).push(error),
        }
    }
}

/// Whether `outcomes` are what decoding `messages` gives, one by one.
pub open spec fn decoded(messages: Seq<Message>, outcomes: Seq<Result<Event, DecodeError>>) -> bool {
    &&& outcomes.len() == messages.len()
    &&& forall|i: int|
        0 <= i < messages.len() ==> decoding_message(messages[i], #[trigger] outcomes[i])
}

/// Whether a connection is due: there is none, or the live one no longer
/// has the comparison base of the desired endpoint, or the query was just
/// edited and is not empty.
pub open spec fn reconnect_due(
    connection: Option<Address>,
    desired: Address,
    query: Seq<char>,
    focus_lost: bool,
) -> bool {
    match connection {
        None => true,
        Some(current) => !same_base_address(current, desired) || (focus_lost && query.len() > 0),
    }
}

/// The error that stays after the desired endpoint could be built: an
/// `InvalidBase` is over, a failed attempt stays known.
pub open spec fn error_with_valid_base(error: Option<SubscriptionError>) -> Option<
    SubscriptionError,
> {
    match error {
        Some(SubscriptionError::InvalidBase) => None,
        other => other,
    }
}

impl<L> ControllerView<L> {
    /// The state of a new controller at `base`: disconnected, with an empty
    /// query, an empty history and the default capacity.
    pub open spec fn fresh(base: Address) -> ControllerView<L> {
        ControllerView {
            base,
            query: Seq::empty(),
            capacity: DEFAULT_CAPACITY,
            events: Seq::empty(),
            failures: Seq::empty(),
            subscription: None,
            error: None,
        }
    }

    /// The parts of the endpoint of the live subscription, or `None` while
    /// disconnected.
    pub open spec fn connection(self) -> Option<Address> {
        match self.subscription {
            Some(live) => Some(live.0),
            None => None,
        }
    }

    /// The connection of the live subscription, or `None` while
    /// disconnected.
    pub open spec fn link(self) -> Option<L> {
        match self.subscription {
            Some(live) => Some(live.1),
            None => None,
        }
    }

    /// The parts of the endpoint that the widget asks for, or `None` where
    /// the base address cannot serve as one.
    pub open spec fn desired(self) -> Option<Address> {
        if self.base.hierarchical {
            Some(endpoint_address(self.base, true, self.query))
        } else {
            None
        }
    }

    /// The state after the outcomes of one tick were taken in. While
    /// connected, the events join the history and the failures the list
    /// of failures, each in the order of arrival; while disconnected they
    /// are dropped. Either way both are then cut to the capacity.
    pub open spec fn absorbed(self, outcomes: Seq<Result<Event, DecodeError>>) -> ControllerView<
        L,
    > {
        ControllerView {
            base: self.base,
            query: self.query,
            capacity: self.capacity,
            events: retained(
                if self.subscription is Some {
                    self.events + successes(outcomes)
                } else {
                    self.events
                },
                self.capacity as nat,
            ),
            failures: retained(
                if self.subscription is Some {
                    self.failures + failures(outcomes)
                } else {
                    self.failures
                },
                self.capacity as nat,
            ),
            subscription: self.subscription,
            error: self.error,
        }
    }

    /// The state after the connection `link` to `endpoint` was made: it is
    /// the live one, the history starts anew and nothing is wrong.
    pub open spec fn adopted(self, endpoint: Address, link: L) -> ControllerView<L> {
        ControllerView {
            base: self.base,
            query: self.query,
            capacity: self.capacity,
            events: Seq::empty(),
            failures: Seq::empty(),
            subscription: Some((endpoint, link)),
            error: None,
        }
    }

    /// The state with another error, and nothing else changed.
    pub open spec fn with_error(self, error: Option<SubscriptionError>) -> ControllerView<L> {
        ControllerView {
            base: self.base,
            query: self.query,
            capacity: self.capacity,
            events: self.events,
            failures: self.failures,
            subscription: self.subscription,
            error,
        }
    }
}

/// The endpoint of a live subscription and its connection. The two have one
/// owner and one lifetime: the connection is whole for as long as the
/// subscription is the live one.
struct Subscription<L> {
    endpoint: Url,
    link: L,
}

/// The orchestrator of one widget's subscription, over connections of the
/// type `L`. It owns at most one live subscription at a time.
pub struct SubscriptionController<L> {
    base: Url,
    query: String,
    events: EventBuffer<Event>,
    failures: Vec<DecodeError>,
    subscription: Option<Subscription<L>>,
    error: Option<SubscriptionError>,
}

impl<L> View for SubscriptionController<L> {
    type V = ControllerView<L>;

    closed spec fn view(&self) -> ControllerView<L> {
        ControllerView {
            base: url_address(self.base),
            query: self.query@,
            capacity: self.events.spec_capacity(),
            events: self.events@,
            failures: self.failures@,
            subscription: match self.subscription {
                Some(live) => Some((url_address(live.endpoint), live.link)),
                None => None,
            },
            error: self.error,
        }
    }
}

/// Decodes each message, in the order of arrival.
pub fn decode_batch(messages: Vec<Message>) -> (outcomes: Vec<Result<Event, DecodeError>>)
    ensures
        decoded(messages@, outcomes@),
{
    let ghost batch = messages@;
    let mut pending = reversed(messages);
    let mut outcomes: Vec<Result<Event, DecodeError>> = Vec::new();
    while pending.len() > 0
        invariant
            outcomes@.len() + pending@.len() == batch.len(),
            pending@ == batch.reverse().subrange(0, batch.len() - outcomes@.len()),
            forall|i: int|
                0 <= i < outcomes@.len() ==> decoding_message(batch[i], #[trigger] outcomes@[i]),
        decreases pending@.len(),
    {
        let ghost read = outcomes@.len() as int;
        let message = pending.pop().unwrap();
        assert(message == batch[read]);
        assert(pending@ =~= batch.reverse().subrange(0, batch.len() - (read + 1)));
        let outcome = decode_message(message);
        outcomes.push(outcome);
    }
    outcomes
}

impl<L> SubscriptionController<L> {
    /// A controller for a widget at `base`: disconnected, with an empty
    /// query, an empty history and the default capacity.
    pub fn new(base: Url) -> (controller: Self)
        ensures
            controller@ == ControllerView::<L>::fresh(url_address(base)),
    {
        SubscriptionController {
            base,
            query: String::new(),
            events: EventBuffer::new(),
            failures: Vec::new(),
            subscription: None,
            error: None,
        }
    }

    /// The query text.
    pub fn query(&self) -> (query: &String)
        ensures
            query@ == self@.query,
    {
        &self.query
    }

    /// The base address.
    pub fn base_address(&self) -> (base: &Url)
        ensures
            url_address(*base) == self@.base,
    {
        &self.base
    }

    /// The capacity of the history, between `MIN_CAPACITY` and
    /// `MAX_CAPACITY`.
    pub fn capacity(&self) -> (capacity: usize)
        ensures
            capacity == self@.capacity,
            MIN_CAPACITY <= capacity <= MAX_CAPACITY,
    {
        self.events.capacity()
    }

    /// Whether a subscription is live.
    pub fn is_connected(&self) -> (connected: bool)
        ensures
            connected == (self@.subscription is Some),
    {
        self.subscription.is_some()
    }

    /// The endpoint of the live subscription, or `None` while disconnected.
    pub fn endpoint(&self) -> (endpoint: Option<&Url>)
        ensures
            match endpoint {
                Some(live) => self@.connection() == Some(url_address(*live)),
                None => self@.connection() is None,
            },
    {
        match &self.subscription {
            Some(live) => Some(&live.endpoint),
            None => None,
        }
    }

    /// The connection of the live subscription, or `None` while
    /// disconnected.
    pub fn link(&self) -> (link: Option<&L>)
        ensures
            match link {
                Some(live) => self@.link() == Some(*live),
                None => self@.link() is None,
            },
    {
        match &self.subscription {
            Some(live) => Some(&live.link),
            None => None,
        }
    }

    /// The events received on the live subscription, oldest first.
    pub fn snapshot(&self) -> (events: &Vec<Event>)
        ensures
            events@ == self@.events,
    {
        self.events.snapshot()
    }

    /// The most recent event, if any has arrived on the live subscription.
    pub fn latest(&self) -> (event: Option<&Event>)
        ensures
            match event {
                Some(newest) => self@.events.len() > 0 && *newest == self@.events.last(),
                None => self@.events.len() == 0,
            },
    {
        let events = self.events.snapshot();
        if events.len() > 0 {
            Some(&events[events.len() - 1])
        } else {
            None
        }
    }

    /// The messages of the live subscription that gave no event, oldest
    /// first.
    pub fn decode_failures(&self) -> (failures: &Vec<DecodeError>)
        ensures
            failures@ == self@.failures,
    {
        &self.failures
    }

    /// What went wrong with the latest attempt to subscribe, if anything.
    pub fn current_connection_error(&self) -> (error: Option<&SubscriptionError>)
        ensures
            match error {
                Some(problem) => self@.error == Some(*problem),
                None => self@.error is None,
            },
    {
        self.error.as_ref()
    }

    /// Replaces the query text. Nothing else changes: the new query is
    /// subscribed to when a connection is next made.
    pub fn set_query(&mut self, text: String)
        ensures
            final(self)@ == (ControllerView { query: text@, ..old(self)@ }),
    {
        self.query = text;
    }

    /// Replaces the base address. Nothing else changes: a connection becomes
    /// due where the new address has another comparison base.
    pub fn set_base_address(&mut self, base: Url)
        ensures
            final(self)@ == (ControllerView { base: url_address(base), ..old(self)@ }),
    {
        self.base = base;
    }

    /// Changes the capacity to the accepted value nearest to `wanted`. The
    /// history is cut to it at the next tick.
    pub fn set_capacity(&mut self, wanted: usize)
        ensures
            final(self)@ == (ControllerView {
                capacity: clamped_capacity(wanted),
                ..old(self)@
            }),
    {
        self.events.set_capacity(wanted);
    }

    /// Says whether a connection is due, and to which endpoint.
    ///
    /// Where the base address cannot serve as one, no attempt is due and
    /// `InvalidBase` becomes the current error. Otherwise an `InvalidBase`
    /// is over, and the desired endpoint is returned exactly if a connection
    /// is due: see [`reconnect_due`].
    pub fn request_connection(&mut self, focus_lost: bool) -> (target: Option<Url>)
        ensures
            match old(self)@.desired() {
                None => {
                    &&& target is None
                    &&& final(self)@ == old(self)@.with_error(Some(SubscriptionError::InvalidBase))
                },
                Some(desired) => {
                    &&& final(self)@ == old(self)@.with_error(
                        error_with_valid_base(old(self)@.error),
                    )
                    &&& match target {
                        Some(endpoint) => {
                            &&& url_address(endpoint) == desired
                            &&& reconnect_due(
                                old(self)@.connection(),
                                desired,
                                old(self)@.query,
                                focus_lost,
                            )
                        },
                        None => !reconnect_due(
                            old(self)@.connection(),
                            desired,
                            old(self)@.query,
                            focus_lost,
                        ),
                    }
                },
            },
    {
        match try_websocket_url(&self.base, true, self.query.as_str()) {
            Err(_) => {
                self.error = Some(SubscriptionError::InvalidBase);
                None
            },
            Ok(desired) => {
                if let Some(SubscriptionError::InvalidBase) = &self.error {
                    self.error = None;
                }
                let due = match &self.subscription {
                    None => true,
                    Some(live) => !same_base(&live.endpoint, &desired) || (focus_lost
                        && !self.query.as_str().is_empty()),
                };
                if due {
                    Some(desired)
                } else {
                    None
                }
            },
        }
    }

    /// Takes over the connection `link` that was made to `endpoint`: the
    /// subscription is the live one from now on and the history starts anew.
    /// The subscription that was live before is retired: its connection is
    /// let go of as a whole.
    pub fn adopt(&mut self, endpoint: Url, link: L)
        ensures
            final(self)@ == old(self)@.adopted(url_address(endpoint), link),
    {
        self.events.clear();
        self.failures.clear();
        self.subscription = Some(Subscription { endpoint, link });
        self.error = None;
    }

    /// Records that an attempt to subscribe failed with `reason`. The live
    /// subscription, if any, and the history stay.
    pub fn connect_failed(&mut self, reason: String)
        ensures
            final(self)@ == old(self)@.with_error(Some(SubscriptionError::Connect(reason))),
    {
        self.error = Some(SubscriptionError::Connect(reason));
    }

    /// Retires the live subscription, if there is one, and hands out its
    /// connection. The history stays.
    pub fn disconnect(&mut self) -> (link: Option<L>)
        ensures
            final(self)@ == (ControllerView { subscription: None, ..old(self)@ }),
            link == old(self)@.link(),
    {
        match self.subscription.take() {
            Some(live) => Some(live.link),
            None => None,
        }
    }

    /// Takes in the outcomes of decoding what arrived since the last tick,
    /// in the order of arrival, then cuts the history to the capacity once.
    pub fn absorb(&mut self, outcomes: Vec<Result<Event, DecodeError>>)
        ensures
            final(self)@ == old(self)@.absorbed(outcomes@),
    {
        let ghost batch = outcomes@;
        let ghost before = self@;
        if self.subscription.is_some() {
            let mut pending = reversed(outcomes);
            let ghost mut read: int = 0;
            while pending.len() > 0
                invariant
                    0 <= read <= batch.len(),
                    pending@ == batch.reverse().subrange(0, batch.len() - read),
                    self@ == (ControllerView {
                        events: before.events + successes(batch.subrange(0, read)),
                        failures: before.failures + failures(batch.subrange(0, read)),
                        ..before
                    }),
                decreases pending@.len(),
            {
                let outcome = pending.pop().unwrap();
                proof {
                    assert(outcome == batch[read]);
                    assert(pending@ =~= batch.reverse().subrange(0, batch.len() - (read + 1)));
                    assert(batch.subrange(0, read + 1).drop_last() =~= batch.subrange(0, read));
                    assert(batch.subrange(0, read + 1).last() == batch[read]);
                }
                match outcome {
                    Ok(event) => {
                        self.events.append(event);
                        assert(self@.events =~= before.events + successes(
                            batch.subrange(0, read + 1),
                        ));
                    },
                    Err(failure) => {
                        self.failures.push(failure);
                        assert(self@.failures =~= before.failures + failures(
                            batch.subrange(0, read + 1),
                        ));
                    },
                }
                proof {
                    read = read + 1;
                }
            }
            proof {
                assert(batch.subrange(0, read) =~= batch);
            }
        }
        self.events.evict_to_capacity();
        let capacity = self.events.capacity();
        evict(&mut self.failures, capacity);
    }

    /// One tick: decodes the messages that arrived since the last one, in
    /// the order of arrival, and takes the outcomes in. A message that gives
    /// no event joins the failures and stops nothing: the messages after it
    /// are decoded as they would be without it.
    pub fn tick(&mut self, messages: Vec<Message>)
        ensures
            exists|outcomes: Seq<Result<Event, DecodeError>>|
                decoded(messages@, outcomes) && final(self)@ == #[trigger] old(self)@.absorbed(
                    outcomes,
                ),
    {
        let outcomes = decode_batch(messages);
        self.absorb(outcomes);
        assert(decoded(messages@, outcomes@) && self@ == old(self)@.absorbed(outcomes@));
    }
}

/// While disconnected a connection is always due.
pub proof fn lemma_disconnected_connects(desired: Address, query: Seq<char>, focus_lost: bool)
    ensures
        reconnect_due(None, desired, query, focus_lost),
{
}

/// A live subscription whose comparison base differs from that of the
/// desired endpoint is replaced, whether or not the query was just edited.
pub proof fn lemma_base_change_reconnects(
    current: Address,
    desired: Address,
    query: Seq<char>,
    focus_lost: bool,
)
    requires
        !same_base_address(current, desired),
    ensures
        reconnect_due(Some(current), desired, query, focus_lost),
{
}

/// While the base address stays as it was when the live subscription was
/// made, another query changes nothing of the comparison base: a connection
/// is due exactly when the query was just edited and is not empty.
pub proof fn lemma_query_change_reconnects_on_focus_loss(
    base: Address,
    subscribed_query: Seq<char>,
    query: Seq<char>,
    focus_lost: bool,
)
    ensures
        same_base_address(
            endpoint_address(base, true, subscribed_query),
            endpoint_address(base, true, query),
        ),
        reconnect_due(
            Some(endpoint_address(base, true, subscribed_query)),
            endpoint_address(base, true, query),
            query,
            focus_lost,
        ) == (focus_lost && query.len() > 0),
{
    lemma_base_ignores_subscription(base, true, subscribed_query, true, query);
}

/// The events of two batches are those of the first followed by those of
/// the second, and so are the failures: what fails in a batch takes nothing
/// from what follows it.
pub proof fn lemma_outcomes_distribute<T, E>(first: Seq<Result<T, E>>, second: Seq<Result<T, E>>)
    ensures
        successes(first + second) == successes(first) + successes(second),
        failures(first + second) == failures(first) + failures(second),
    decreases second.len(),
{
    if second.len() == 0 {
        assert(first + second =~= first);
        assert(successes(first) + successes(second) =~= successes(first));
        assert(failures(first) + failures(second) =~= failures(first));
    } else {
        lemma_outcomes_distribute(first, second.drop_last());
        assert((first + second).drop_last() =~= first + second.drop_last());
        assert((first + second).last() == second.last());
        match second.last() {
            Ok(value) => {
                assert(successes(first + second) =~= successes(first) + successes(second));
            },
            Err(error) => {
                assert(failures(first + second) =~= failures(first) + failures(second));
            },
        }
    }
}

/// A failure followed by an event leaves the event in the history: after
/// the two outcomes the newest event is that event.
pub proof fn lemma_event_after_failure_is_kept<L>(
    state: ControllerView<L>,
    failure: DecodeError,
    event: Event,
)
    requires
        state.subscription is Some,
        state.capacity >= 1,
    ensures
        state.absorbed(seq![Err(failure), Ok(event)]).events.len() > 0,
        state.absorbed(seq![Err(failure), Ok(event)]).events.last() == event,
        state.absorbed(seq![Err(failure), Ok(event)]).failures.len() > 0,
        state.absorbed(seq![Err(failure), Ok(event)]).failures.last() == failure,
{
    let outcomes = seq![Err::<Event, DecodeError>(failure), Ok::<Event, DecodeError>(event)];
    assert(outcomes.drop_last() =~= seq![Err::<Event, DecodeError>(failure)]);
    assert(outcomes.drop_last().drop_last() =~= Seq::<Result<Event, DecodeError>>::empty());
    reveal_with_fuel(successes, 3);
    reveal_with_fuel(failures, 3);
    assert(successes(outcomes) =~= seq![event]);
    assert(failures(outcomes) =~= seq![failure]);
}

/// Ticks compose: taking in two batches one after the other leaves what
/// taking in both at once would leave.
pub proof fn lemma_ticks_compose<L>(
    state: ControllerView<L>,
    first: Seq<Result<Event, DecodeError>>,
    second: Seq<Result<Event, DecodeError>>,
)
    ensures
        state.absorbed(first).absorbed(second) == state.absorbed(first + second),
{
    lemma_outcomes_distribute(first, second);
    let capacity = state.capacity as nat;
    if state.subscription is Some {
        lemma_eviction_composes(
            state.events + successes(first),
            successes(second),
            capacity,
        );
        lemma_eviction_composes(
            state.failures + failures(first),
            failures(second),
            capacity,
        );
        assert(state.events + successes(first) + successes(second) =~= state.events + (successes(
            first,
        ) + successes(second)));
        assert(state.failures + failures(first) + failures(second) =~= state.failures + (failures(
            first,
        ) + failures(second)));
    } else {
        lemma_eviction_composes(state.events, Seq::empty(), capacity);
        lemma_eviction_composes(state.failures, Seq::empty(), capacity);
        assert(retained(state.events, capacity) + Seq::<Event>::empty() =~= retained(
            state.events,
            capacity,
        ));
        assert(state.events + Seq::<Event>::empty() =~= state.events);
        assert(retained(state.failures, capacity) + Seq::<DecodeError>::empty() =~= retained(
            state.failures,
            capacity,
        ));
        assert(state.failures + Seq::<DecodeError>::empty() =~= state.failures);
    }
}

} // verus!
