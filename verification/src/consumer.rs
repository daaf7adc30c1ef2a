//! The consumption loop: subscribe with bounded retries, then feed every
//! message received into the ingestion buffer. The caller talks to the
//! broker and reports what happened; this module decides what follows.

use crate::buffer::{latest, lemma_latest_push, EventText, IngestionBuffer, StoredEvent};
use crate::retry::{on_outcome, RetryAction, RetryPolicy, RetryState, WARMUP_SECS};
use vstd::prelude::*;
use vstd::utf8::{decode_utf8, valid_utf8};

verus! {

/// Address of the broker.
pub const BOOTSTRAP_SERVERS: &'static str = "kafka:9092";

/// Topic that records are published to and consumed from.
pub const TOPIC: &'static str = "messages";

/// Consumer-group identity of the consumption loop.
pub const CONSUMER_GROUP: &'static str = "message_service_group";

/// Where the consumer starts when the group has no committed position.
pub const OFFSET_RESET: &'static str = "earliest";

/// Key of an event whose message had no key, or none that is text.
pub const UNKNOWN_KEY: &'static str = "unknown";

/// Value of an event whose message had no payload, or none that is text.
pub const EMPTY_VALUE: &'static str = "empty";

/// Where the consumption loop stands.
#[derive(Clone, Copy, Debug, PartialEq, Eq, Structural)]
pub enum LoopState {
    /// The consumer client is being built.
    Connecting,
    /// A subscribe attempt is due; `failed` attempts came before it.
    Subscribing { failed: usize },
    /// Subscribed: messages are received one by one.
    Consuming,
    /// The loop has ended.
    Terminated,
}

/// What the caller reports.
pub enum LoopEvent {
    ClientBuilt,
    ClientFailed,
    Subscribed,
    SubscribeFailed,
    /// A message arrived, with its raw key and payload where it has them.
    Message { key: Option<Vec<u8>>, payload: Option<Vec<u8>> },
    ReceiveFailed,
}

/// What the caller does next.
#[derive(Clone, Copy, Debug, PartialEq, Eq, Structural)]
pub enum LoopAction {
    /// Wait, then build the consumer client.
    BuildClient { after_secs: u64 },
    /// Wait, then try to subscribe to the topic.
    Subscribe { after_secs: u64 },
    /// Await the next message.
    Receive,
    /// End the loop quietly; the service goes on without it.
    Stop,
    /// The consumer cannot be built: fail.
    Abort,
}

/// The text that `bytes` hold, or `fallback` where there are none or they
/// are not UTF-8.
pub open spec fn text_or(bytes: Option<Vec<u8>>, fallback: Seq<char>) -> Seq<char> {
    match bytes {
        Some(raw) => if valid_utf8(raw@) {
            decode_utf8(raw@)
        } else {
            fallback
        },
        None => fallback,
    }
}

/// The event that a message with this key and payload is stored as.
pub open spec fn decoded(key: Option<Vec<u8>>, payload: Option<Vec<u8>>) -> EventText {
    EventText { key: text_or(key, UNKNOWN_KEY@), value: text_or(payload, EMPTY_VALUE@) }
}

/// The action that is due in `state`.
pub open spec fn due(policy: RetryPolicy, state: LoopState) -> LoopAction {
    match state {
        LoopState::Connecting => LoopAction::BuildClient { after_secs: WARMUP_SECS },
        LoopState::Subscribing { failed } => LoopAction::Subscribe {
            after_secs: if failed == 0 {
                0
            } else {
                policy.delay_secs
            },
        },
        LoopState::Consuming => LoopAction::Receive,
        LoopState::Terminated => LoopAction::Stop,
    }
}

/// The state that follows `state` on `event`. An event that the state does
/// not await changes nothing.
pub open spec fn next_loop_state(policy: RetryPolicy, state: LoopState, event: LoopEvent)
    -> LoopState {
    match (state, event) {
        (LoopState::Connecting, LoopEvent::ClientBuilt) => LoopState::Subscribing { failed: 0 },
        (LoopState::Connecting, LoopEvent::ClientFailed) => LoopState::Terminated,
        (LoopState::Subscribing { failed }, LoopEvent::Subscribed) => LoopState::Consuming,
        (LoopState::Subscribing { failed }, LoopEvent::SubscribeFailed) => if failed
            < policy.max_retries {
            LoopState::Subscribing { failed: (failed + 1) as usize }
        } else {
            LoopState::Terminated
        },
        _ => state,
    }
}

/// The action that follows `state` on `event`: `Abort` where the client
/// could not be built, else the action due in the next state.
pub open spec fn next_loop_action(policy: RetryPolicy, state: LoopState, event: LoopEvent)
    -> LoopAction {
    match (state, event) {
        (LoopState::Connecting, LoopEvent::ClientFailed) => LoopAction::Abort,
        _ => due(policy, next_loop_state(policy, state, event)),
    }
}

/// What the buffer holds after `event` in `state`: a message received while
/// consuming is appended, decoded; nothing else touches the buffer.
pub open spec fn next_contents(
    state: LoopState,
    event: LoopEvent,
    contents: Seq<EventText>,
    cap: nat,
) -> Seq<EventText> {
    match (state, event) {
        (LoopState::Consuming, LoopEvent::Message { key, payload }) => latest(
            contents.push(decoded(key, payload)),
            cap,
        ),
        _ => contents,
    }
}

/// The state reached from `state` once `events` were reported in turn.
pub open spec fn state_after(policy: RetryPolicy, state: LoopState, events: Seq<LoopEvent>)
    -> LoopState
    decreases events.len(),
{
    if events.len() == 0 {
        state
    } else {
        next_loop_state(policy, state_after(policy, state, events.drop_last()), events.last())
    }
}

/// What a buffer that held `contents` holds once `events` were reported in
/// turn to a loop that started in `state`.
pub open spec fn contents_after(
    policy: RetryPolicy,
    state: LoopState,
    events: Seq<LoopEvent>,
    contents: Seq<EventText>,
    cap: nat,
) -> Seq<EventText>
    decreases events.len(),
{
    if events.len() == 0 {
        contents
    } else {
        next_contents(
            state_after(policy, state, events.drop_last()),
            events.last(),
            contents_after(policy, state, events.drop_last(), contents, cap),
            cap,
        )
    }
}

/// The messages among `events`, decoded, in the order of their arrival.
pub open spec fn decoded_messages(events: Seq<LoopEvent>) -> Seq<EventText>
    decreases events.len(),
{
    if events.len() == 0 {
        Seq::empty()
    } else {
        match events.last() {
            LoopEvent::Message { key, payload } => decoded_messages(events.drop_last()).push(
                decoded(key, payload),
            ),
            _ => decoded_messages(events.drop_last()),
        }
    }
}

/// Reads `bytes` as text through rdkafka's `FromBytes::from_bytes` for `str`,
/// which is `str::from_utf8`: the text comes back exactly where the bytes are
/// well-formed UTF-8, and it is what they encode.
#[verifier::external_body]
fn decode_text(bytes: &[u8]) -> (text: Option<String>)
    ensures
        text is Some <==> valid_utf8(bytes@),
        text matches Some(t) ==> t@ == decode_utf8(bytes@),
{
    <str as rdkafka::message::FromBytes>::from_bytes(bytes).ok().map(String::from)
}

/// The text of a key or payload, `fallback` standing in for one that is
/// missing or is not text.
pub fn text_or_fallback(bytes: &Option<Vec<u8>>, fallback: &str) -> (text: String)
    ensures
        text@ == text_or(*bytes, fallback@),
{
    match bytes {
        Some(raw) => match decode_text(raw.as_slice()) {
            Some(text) => text,
            None => fallback.to_owned(),
        },
        None => fallback.to_owned(),
    }
}

/// Decodes a message into the event that is buffered for it. A malformed or
/// missing field never fails: it becomes `"unknown"` or `"empty"`.
pub fn decode_event(key: &Option<Vec<u8>>, payload: &Option<Vec<u8>>) -> (event: StoredEvent)
    ensures
        event@ == decoded(*key, *payload),
{
    StoredEvent::new(text_or_fallback(key, UNKNOWN_KEY), text_or_fallback(payload, EMPTY_VALUE))
}

/// The state in which the loop starts, and its first action: build the
/// client after the warm-up delay.
pub fn start(policy: RetryPolicy) -> (first: (LoopState, LoopAction))
    ensures
        first.0 == LoopState::Connecting,
        first.1 == due(policy, first.0),
{
    (LoopState::Connecting, LoopAction::BuildClient { after_secs: WARMUP_SECS })
}

/// One step of the loop: takes what the caller reports, stores a received
/// message in `buffer`, and returns the next state and action.
pub fn step(policy: RetryPolicy, state: LoopState, event: LoopEvent, buffer: &mut IngestionBuffer)
    -> (next: (LoopState, LoopAction))
    requires
        old(buffer).wf(),
    ensures
        final(buffer).wf(),
        final(buffer).cap() == old(buffer).cap(),
        final(buffer)@ == next_contents(state, event, old(buffer)@, old(buffer).cap()),
        next.0 == next_loop_state(policy, state, event),
        next.1 == next_loop_action(policy, state, event),
{
    match state {
        LoopState::Connecting => match event {
            LoopEvent::ClientBuilt => (
                LoopState::Subscribing { failed: 0 },
                LoopAction::Subscribe { after_secs: 0 },
            ),
            LoopEvent::ClientFailed => (LoopState::Terminated, LoopAction::Abort),
            _ => (state, LoopAction::BuildClient { after_secs: WARMUP_SECS }),
        },
        LoopState::Subscribing { failed } => {
            let ok = match event {
                LoopEvent::Subscribed => Some(true),
                LoopEvent::SubscribeFailed => Some(false),
                _ => None,
            };
            match ok {
                Some(ok) => {
                    let outcome = on_outcome(policy, RetryState::Trying { failed }, ok);
                    match outcome.0 {
                        RetryState::Trying { failed: now } => (
                            LoopState::Subscribing { failed: now },
                            LoopAction::Subscribe { after_secs: policy.delay_secs },
                        ),
                        RetryState::Established => (LoopState::Consuming, LoopAction::Receive),
                        RetryState::Exhausted => (LoopState::Terminated, LoopAction::Stop),
                    }
                },
                None => (
                    state,
                    LoopAction::Subscribe {
                        after_secs: if failed == 0 {
                            0
                        } else {
                            policy.delay_secs
                        },
                    },
                ),
            }
        },
        LoopState::Consuming => {
            match event {
                LoopEvent::Message { key, payload } => {
                    let stored = decode_event(&key, &payload);
                    buffer.push(stored);
                },
                _ => {},
            }
            (LoopState::Consuming, LoopAction::Receive)
        },
        LoopState::Terminated => (LoopState::Terminated, LoopAction::Stop),
    }
}

/// Once consuming, the loop stays consuming whatever is reported: no
/// message and no receive error ends it.
pub proof fn lemma_consuming_never_ends(policy: RetryPolicy, event: LoopEvent)
    ensures
        next_loop_state(policy, LoopState::Consuming, event) == LoopState::Consuming,
        next_loop_action(policy, LoopState::Consuming, event) == LoopAction::Receive,
{
}

/// A loop that consumes into an empty buffer leaves in it, whatever else
/// is reported in between, exactly the most recent messages, decoded and
/// oldest first, as many as the capacity admits; and it goes on consuming.
pub proof fn lemma_consuming_keeps_latest(policy: RetryPolicy, events: Seq<LoopEvent>, cap: nat)
    ensures
        state_after(policy, LoopState::Consuming, events) == LoopState::Consuming,
        contents_after(policy, LoopState::Consuming, events, Seq::empty(), cap) == latest(
            decoded_messages(events),
            cap,
        ),
    decreases events.len(),
{
    if events.len() > 0 {
        lemma_consuming_keeps_latest(policy, events.drop_last(), cap);
        match events.last() {
            LoopEvent::Message { key, payload } => {
                lemma_latest_push(
                    decoded_messages(events.drop_last()),
                    decoded(key, payload),
                    cap,
                );
            },
            _ => {},
        }
    }
}

/// While the loop has not reached `Consuming`, nothing is buffered.
pub proof fn lemma_buffer_untouched_outside_consuming(
    state: LoopState,
    event: LoopEvent,
    contents: Seq<EventText>,
    cap: nat,
)
    requires
        state != LoopState::Consuming,
    ensures
        next_contents(state, event, contents, cap) == contents,
{
}

/// A message without a key is stored under the key `"unknown"`, and one
/// without a payload with the value `"empty"`.
pub proof fn lemma_missing_fields_get_sentinels(key: Option<Vec<u8>>, payload: Option<Vec<u8>>)
    ensures
        key is None ==> decoded(key, payload).key == UNKNOWN_KEY@,
        payload is None ==> decoded(key, payload).value == EMPTY_VALUE@,
{
}

} // verus!
