//! The subscription loop, as a state machine: each event from the broker
//! connection is answered with the next state and one action for the caller
//! to carry out.

use vstd::prelude::*;
use crate::buffer::{
    appended, latest, lemma_window_slides, RecencyBuffer, MAX_LOCAL_MEASUREMENTS,
};
use crate::clock::get_timestamp;
use crate::gate::WriteGate;
use crate::reading::{assembled, wants_clock, DecodeError, Payload, RawReading};

verus! {

/// Seconds to wait after a transport failure, unless configured otherwise.
pub const DEFAULT_BACKOFF_SECS: u64 = 3;

/// Where the broker connection stands.
#[derive(Clone, Copy, Debug, PartialEq, Eq, Structural)]
pub enum LinkState {
    /// No connection; the next poll tries to connect.
    Disconnected,
    /// Connected; the subscription has not been acknowledged yet.
    Unsubscribed,
    /// Connected and subscribed.
    Subscribed,
}

/// What a poll of the connection came back with.
#[derive(Clone, Copy, Debug, PartialEq, Eq)]
pub enum Event {
    /// The broker acknowledged the connection.
    ConnAck,
    /// The broker acknowledged the subscription.
    SubAck,
    /// A message on the subscribed topic. The body is what was found in it,
    /// or `None` if it is not a JSON document with values of the expected
    /// types.
    Publish(Option<RawReading>),
    /// Any other packet, inbound or outbound.
    Other,
    /// The connection failed.
    TransportError,
}

/// What the caller is to do next.
#[derive(Clone, Copy, Debug, PartialEq, Eq, Structural)]
pub enum Action {
    /// Nothing; poll again.
    Idle,
    /// Send the subscribe request for the configured topic.
    Subscribe,
    /// The message gave no reading and was dropped.
    Discard(DecodeError),
    /// The reading was buffered; writes are disabled, so it goes no further.
    Keep(Payload),
    /// The reading was buffered; hand it to the store, without waiting for
    /// the write to finish.
    Dispatch(Payload),
    /// Wait this many seconds, then poll again.
    Backoff(u64),
}

/// The reading in a message body received at `now`, or why there is none.
pub open spec fn decoded(body: Option<RawReading>, now: Option<i64>) -> Result<
    Payload,
    DecodeError,
> {
    match body {
        Some(raw) => assembled(raw, now),
        None => Err(DecodeError::Malformed),
    }
}

/// The connection state after `event`.
pub open spec fn next_link(link: LinkState, event: Event) -> LinkState {
    match event {
        Event::ConnAck => LinkState::Unsubscribed,
        Event::SubAck => if link == LinkState::Unsubscribed {
            LinkState::Subscribed
        } else {
            link
        },
        Event::TransportError => LinkState::Disconnected,
        Event::Publish(_) => link,
        Event::Other => link,
    }
}

/// The buffer contents after `event`, received at `now`: a message that
/// holds a reading adds it, and nothing else changes the buffer.
pub open spec fn next_buffer(held: Seq<Payload>, event: Event, now: Option<i64>) -> Seq<Payload> {
    match event {
        Event::Publish(body) => match decoded(body, now) {
            Ok(reading) => appended(held, reading),
            Err(_) => held,
        },
        _ => held,
    }
}

/// The action that answers `event`, received at `now`, while the write gate
/// reads `writes_enabled`.
pub open spec fn action_for(
    event: Event,
    now: Option<i64>,
    writes_enabled: bool,
    backoff_secs: u64,
) -> Action {
    match event {
        Event::ConnAck => Action::Subscribe,
        Event::SubAck => Action::Idle,
        Event::Publish(body) => match decoded(body, now) {
            Ok(reading) => if writes_enabled {
                Action::Dispatch(reading)
            } else {
                Action::Keep(reading)
            },
            Err(reason) => Action::Discard(reason),
        },
        Event::Other => Action::Idle,
        Event::TransportError => Action::Backoff(backoff_secs),
    }
}

/// Whether the time of receipt matters for `event`.
pub open spec fn event_wants_clock(event: Event) -> bool {
    match event {
        Event::Publish(Some(raw)) => wants_clock(raw),
        _ => false,
    }
}

/// The time on the reading that an action carries, if it carries one.
pub open spec fn reading_time(action: Action) -> Option<i64> {
    match action {
        Action::Keep(reading) => Some(reading.time),
        Action::Dispatch(reading) => Some(reading.time),
        _ => None,
    }
}

/// The decision core of the subscription loop.
pub struct Relay {
    link: LinkState,
    backoff_secs: u64,
}

impl Relay {
    /// The connection state.
    pub closed spec fn link(&self) -> LinkState {
        self.link
    }

    /// Seconds to wait after a transport failure.
    pub closed spec fn backoff_secs(&self) -> u64 {
        self.backoff_secs
    }

    /// A relay that is not connected yet and waits `backoff_secs` seconds
    /// after each transport failure.
    pub fn new(backoff_secs: u64) -> (relay: Relay)
        ensures
            relay.link() == LinkState::Disconnected,
            relay.backoff_secs() == backoff_secs,
    {
        Relay { link: LinkState::Disconnected, backoff_secs }
    }

    /// The connection state.
    pub fn state(&self) -> (link: LinkState)
        ensures
            link == self.link(),
    {
        self.link
    }

    /// Takes in `event`, received at `now`: moves the connection state on,
    /// buffers the reading if the event holds one, and says what to do next.
    /// The write gate is read once, here, and a reading is dispatched exactly
    /// when it reads true at this moment.
    pub fn step_at(
        &mut self,
        event: Event,
        now: Option<i64>,
        gate: &WriteGate,
        buffer: &mut RecencyBuffer,
    ) -> (action: Action)
        ensures
            final(self).backoff_secs() == old(self).backoff_secs(),
            final(self).link() == next_link(old(self).link(), event),
            final(buffer)@ == next_buffer(old(buffer)@, event, now),
            action == action_for(event, now, gate@.enabled, old(self).backoff_secs()),
    {
        match event {
            Event::ConnAck => {
                self.link = LinkState::Unsubscribed;
                Action::Subscribe
            },
            Event::SubAck => {
                if self.link == LinkState::Unsubscribed {
                    self.link = LinkState::Subscribed;
                }
                Action::Idle
            },
            Event::Publish(body) => {
                let outcome = match body {
                    Some(raw) => raw.assemble(now),
                    None => Err(DecodeError::Malformed),
                };
                match outcome {
                    Ok(reading) => {
                        let writes_enabled = gate.read();
                        buffer.append(reading);
                        if writes_enabled {
                            Action::Dispatch(reading)
                        } else {
                            Action::Keep(reading)
                        }
                    },
                    Err(reason) => Action::Discard(reason),
                }
            },
            Event::Other => Action::Idle,
            Event::TransportError => {
                self.link = LinkState::Disconnected;
                Action::Backoff(self.backoff_secs)
            },
        }
    }

    /// Takes in `event`, received now. The clock is read only for a message
    /// that needs it, and what comes of the event is what [`Relay::step_at`]
    /// makes of it for that reading of the clock: the time on the reading
    /// that the returned action carries, and no time where it carries none.
    pub fn step(&mut self, event: Event, gate: &WriteGate, buffer: &mut RecencyBuffer) -> (action:
        Action)
        ensures
            final(self).backoff_secs() == old(self).backoff_secs(),
            final(self).link() == next_link(old(self).link(), event),
            final(buffer)@ == next_buffer(old(buffer)@, event, reading_time(action)),
            action == action_for(
                event,
                reading_time(action),
                gate@.enabled,
                old(self).backoff_secs(),
            ),
    {
        let now = match &event {
            Event::Publish(Some(raw)) => if raw.needs_clock() {
                get_timestamp()
            } else {
                None
            },
            _ => None,
        };
        self.step_at(event, now, gate, buffer)
    }
}

/// The readings that a run of events brings, oldest first. Each event comes
/// with its time of receipt.
pub open spec fn readings_in(run: Seq<(Event, Option<i64>)>) -> Seq<Payload>
    decreases run.len(),
{
    if run.len() == 0 {
        Seq::empty()
    } else {
        let earlier = readings_in(run.drop_last());
        match run.last().0 {
            Event::Publish(body) => match decoded(body, run.last().1) {
                Ok(reading) => earlier.push(reading),
                Err(_) => earlier,
            },
            _ => earlier,
        }
    }
}

/// What a buffer holding `held` becomes over a run of events.
pub open spec fn buffer_after(held: Seq<Payload>, run: Seq<(Event, Option<i64>)>) -> Seq<Payload>
    decreases run.len(),
{
    if run.len() == 0 {
        held
    } else {
        next_buffer(buffer_after(held, run.drop_last()), run.last().0, run.last().1)
    }
}

/// A buffer that starts empty holds, after any run of events, the last
/// [`MAX_LOCAL_MEASUREMENTS`] readings that the run brought, or all of them
/// if there are fewer, in arrival order. Messages without a reading, and
/// events that are no messages, leave no mark on it.
pub proof fn lemma_buffer_follows_the_stream(run: Seq<(Event, Option<i64>)>)
    ensures
        buffer_after(Seq::empty(), run) == latest(
            readings_in(run),
            MAX_LOCAL_MEASUREMENTS as nat,
        ),
        buffer_after(Seq::empty(), run).len() <= MAX_LOCAL_MEASUREMENTS,
    decreases run.len(),
{
    if run.len() > 0 {
        lemma_buffer_follows_the_stream(run.drop_last());
        if let Event::Publish(body) = run.last().0 {
            if let Ok(reading) = decoded(body, run.last().1) {
                lemma_window_slides(readings_in(run.drop_last()), reading);
            }
        }
    }
}

/// A message that gives no reading is dropped and changes nothing: the
/// buffer and the connection state stay as they are, and the action is to
/// discard it, for the reason the decoding gave. The write gate is only ever
/// read by [`Relay::step_at`], so it cannot change either.
pub proof fn lemma_rejected_message_changes_nothing(
    link: LinkState,
    held: Seq<Payload>,
    body: Option<RawReading>,
    now: Option<i64>,
    writes_enabled: bool,
    backoff_secs: u64,
)
    requires
        decoded(body, now) is Err,
    ensures
        next_buffer(held, Event::Publish(body), now) == held,
        next_link(link, Event::Publish(body)) == link,
        action_for(Event::Publish(body), now, writes_enabled, backoff_secs) == Action::Discard(
            decoded(body, now)->Err_0,
        ),
{
}

/// Whether `event`, received at `now`, is a message that holds `reading`.
pub open spec fn holds_reading(event: Event, now: Option<i64>, reading: Payload) -> bool {
    match event {
        Event::Publish(body) => decoded(body, now) == Ok::<Payload, DecodeError>(reading),
        _ => false,
    }
}

/// A reading is dispatched if and only if the write gate reads true at the
/// moment the message that holds it is taken in. A dispatch always carries
/// the reading of the message it answers, so a reading that was kept back
/// is not dispatched by any later event, whatever the write gate reads then.
pub proof fn lemma_dispatch_needs_open_gate(
    event: Event,
    now: Option<i64>,
    writes_enabled: bool,
    backoff_secs: u64,
    reading: Payload,
)
    ensures
        action_for(event, now, writes_enabled, backoff_secs) == Action::Dispatch(reading) <==> (
        writes_enabled && holds_reading(event, now, reading)),
        action_for(event, now, writes_enabled, backoff_secs) == Action::Keep(reading) <==> (
        !writes_enabled && holds_reading(event, now, reading)),
{
}

/// The time of receipt bears on an event only where the event wants the
/// clock: for every other event, any two times give the same outcome.
pub proof fn lemma_clock_matters_only_when_wanted(
    held: Seq<Payload>,
    event: Event,
    a: Option<i64>,
    b: Option<i64>,
    writes_enabled: bool,
    backoff_secs: u64,
)
    requires
        !event_wants_clock(event),
    ensures
        next_buffer(held, event, a) == next_buffer(held, event, b),
        action_for(event, a, writes_enabled, backoff_secs) == action_for(
            event,
            b,
            writes_enabled,
            backoff_secs,
        ),
{
}

} // verus!
