//! What the facade's handlers decide before anything is sent: which
//! endpoint is addressed, and what is forwarded and published.

use crate::json::{chars_of, json_text, record_object};
use crate::record::{is_v4_text, Record};
use crate::selector::{is_member, AppState};
use vstd::prelude::*;
use vstd::string::StringExecFns;

verus! {

/// All that handling one inbound message needs before anything is sent.
pub struct IngestPlan {
    pub record: Record,
    /// Where the record is forwarded to.
    pub log_url: String,
    /// The record as JSON, for the log store and the event log alike;
    /// `None` where it cannot be serialised.
    pub payload: Option<String>,
}

/// How far the handling of one inbound message has come.
#[derive(Clone, Copy, Debug, PartialEq, Eq, Structural)]
pub enum IngestStage {
    /// The record is on its way to the log store.
    Forwarding,
    /// The log store has it; it is on its way to the event log.
    Publishing,
    /// Both have it: the identifier is the answer.
    Answered,
    /// A step failed: the request ends in an internal error.
    Failed,
}

/// What the caller reports of the step it performed.
#[derive(Clone, Copy, Debug, PartialEq, Eq, Structural)]
pub enum IngestEvent {
    Forwarded,
    ForwardFailed,
    Published,
    PublishFailed,
}

/// What the caller does next.
#[derive(Clone, Copy, Debug, PartialEq, Eq, Structural)]
pub enum IngestAction {
    /// Send the record to the log store.
    Forward,
    /// Publish the payload to the event log, once.
    Publish,
    /// Answer with the record's identifier.
    Respond,
    /// Answer with an internal error; nothing is retried.
    Fail,
}

/// The stage that follows `stage` on `event`, for a record that has a
/// payload or has none. The record is published only after the log store
/// took it; a failure of either step ends the request; an event that the
/// stage does not await changes nothing.
pub open spec fn next_stage(stage: IngestStage, event: IngestEvent, has_payload: bool)
    -> IngestStage {
    match (stage, event) {
        (IngestStage::Forwarding, IngestEvent::Forwarded) => if has_payload {
            IngestStage::Publishing
        } else {
            IngestStage::Failed
        },
        (IngestStage::Forwarding, IngestEvent::ForwardFailed) => IngestStage::Failed,
        (IngestStage::Publishing, IngestEvent::Published) => IngestStage::Answered,
        (IngestStage::Publishing, IngestEvent::PublishFailed) => IngestStage::Failed,
        _ => stage,
    }
}

/// The action that is due in `stage`.
pub open spec fn action_at(stage: IngestStage) -> IngestAction {
    match stage {
        IngestStage::Forwarding => IngestAction::Forward,
        IngestStage::Publishing => IngestAction::Publish,
        IngestStage::Answered => IngestAction::Respond,
        IngestStage::Failed => IngestAction::Fail,
    }
}

/// The stage reached from `stage` by `events` in turn.
pub open spec fn stage_after(stage: IngestStage, events: Seq<IngestEvent>, has_payload: bool)
    -> IngestStage
    decreases events.len(),
{
    if events.len() == 0 {
        stage
    } else {
        next_stage(stage_after(stage, events.drop_last(), has_payload), events.last(), has_payload)
    }
}

/// How often `events` lead from `stage` into `Publishing`, which is how
/// often the caller is told to publish.
pub open spec fn publish_count(stage: IngestStage, events: Seq<IngestEvent>, has_payload: bool)
    -> nat
    decreases events.len(),
{
    if events.len() == 0 {
        0
    } else {
        let before = stage_after(stage, events.drop_last(), has_payload);
        let now = next_stage(before, events.last(), has_payload);
        publish_count(stage, events.drop_last(), has_payload) + if before
            != IngestStage::Publishing && now == IngestStage::Publishing {
            1nat
        } else {
            0nat
        }
    }
}

/// Whatever is reported, a request leads to at most one publish attempt,
/// and to none unless the log store took the record first.
pub proof fn lemma_at_most_one_publish(events: Seq<IngestEvent>, has_payload: bool)
    ensures
        publish_count(IngestStage::Forwarding, events, has_payload) <= 1,
        publish_count(IngestStage::Forwarding, events, has_payload) == 1 ==> events.contains(
            IngestEvent::Forwarded,
        ) && has_payload,
        stage_after(IngestStage::Forwarding, events, has_payload) == IngestStage::Forwarding
            ==> publish_count(IngestStage::Forwarding, events, has_payload) == 0,
        stage_after(IngestStage::Forwarding, events, has_payload) == IngestStage::Publishing
            ==> publish_count(IngestStage::Forwarding, events, has_payload) == 1,
        stage_after(IngestStage::Forwarding, events, has_payload) == IngestStage::Answered
            ==> publish_count(IngestStage::Forwarding, events, has_payload) == 1,
    decreases events.len(),
{
    if events.len() > 0 {
        lemma_at_most_one_publish(events.drop_last(), has_payload);
        let before = stage_after(IngestStage::Forwarding, events.drop_last(), has_payload);
        if events.drop_last().contains(IngestEvent::Forwarded) {
            let i = choose|i: int|
                0 <= i < events.drop_last().len() && events.drop_last()[i]
                    == IngestEvent::Forwarded;
            assert(events[i] == IngestEvent::Forwarded);
        }
        if before == IngestStage::Forwarding && events.last() == IngestEvent::Forwarded {
            assert(events[events.len() - 1] == IngestEvent::Forwarded);
        }
    }
}

/// `http://ENDPOINT/PATH`.
pub open spec fn url_of(endpoint: Seq<char>, path: Seq<char>) -> Seq<char> {
    "http://"@ + endpoint + "/"@ + path
}

/// The address of `path` at `endpoint`.
pub fn url_for(endpoint: &str, path: &str) -> (url: String)
    ensures
        url@ == url_of(endpoint@, path@),
{
    let mut url = "http://".to_owned();
    url.append(endpoint);
    url.append("/");
    url.append(path);
    url
}

impl IngestPlan {
    /// The stage in which handling starts, and its action: forward the
    /// record to the log store.
    pub fn begin(&self) -> (first: (IngestStage, IngestAction))
        ensures
            first.0 == IngestStage::Forwarding,
            first.1 == action_at(first.0),
    {
        (IngestStage::Forwarding, IngestAction::Forward)
    }

    /// Takes what the caller reports and returns the next stage with the
    /// action that is due in it.
    pub fn advance(&self, stage: IngestStage, event: IngestEvent) -> (next: (
        IngestStage,
        IngestAction,
    ))
        ensures
            next.0 == next_stage(stage, event, self.payload is Some),
            next.1 == action_at(next.0),
    {
        match stage {
            IngestStage::Forwarding => match event {
                IngestEvent::Forwarded => if self.payload.is_some() {
                    (IngestStage::Publishing, IngestAction::Publish)
                } else {
                    (IngestStage::Failed, IngestAction::Fail)
                },
                IngestEvent::ForwardFailed => (IngestStage::Failed, IngestAction::Fail),
                _ => (stage, IngestAction::Forward),
            },
            IngestStage::Publishing => match event {
                IngestEvent::Published => (IngestStage::Answered, IngestAction::Respond),
                IngestEvent::PublishFailed => (IngestStage::Failed, IngestAction::Fail),
                _ => (stage, IngestAction::Publish),
            },
            IngestStage::Answered => (stage, IngestAction::Respond),
            IngestStage::Failed => (stage, IngestAction::Fail),
        }
    }
}

impl AppState {
    /// Prepares the handling of one inbound message: picks a log-store
    /// endpoint, builds the record under a fresh identifier, and gives the
    /// address to forward it to and its JSON text.
    pub fn plan_ingest(&mut self, msg: &str) -> (plan: IngestPlan)
        requires
            old(self).wf(),
        ensures
            final(self).logging_services == old(self).logging_services,
            final(self).message_services == old(self).message_services,
            plan.record.msg@ == msg@,
            is_v4_text(plan.record.uuid@),
            exists|endpoint: Seq<char>|
                is_member(old(self).logging_services@, endpoint) && plan.log_url@ == #[trigger] url_of(
                    endpoint,
                    "log"@,
                ),
            chars_of(plan.payload) == record_object(json_text(plan.record.uuid@), json_text(plan.record.msg@)),
    {
        let endpoint = self.select_logging_service();
        let record = Record::fresh(msg);
        let log_url = url_for(endpoint.as_str(), "log");
        let payload = record.to_json();
        IngestPlan { record, log_url, payload }
    }

    /// The address from which all logged records are read: `/logs` at an
    /// endpoint of the log-store pool.
    pub fn plan_logs(&mut self) -> (url: String)
        requires
            old(self).wf(),
        ensures
            final(self).logging_services == old(self).logging_services,
            final(self).message_services == old(self).message_services,
            exists|endpoint: Seq<char>|
                is_member(old(self).logging_services@, endpoint) && url@ == #[trigger] url_of(
                    endpoint,
                    "logs"@,
                ),
    {
        let endpoint = self.select_logging_service();
        url_for(endpoint.as_str(), "logs")
    }

    /// The address from which the recent events are read: `/messages` at an
    /// endpoint of the read-back pool.
    pub fn plan_messages(&mut self) -> (url: String)
        requires
            old(self).wf(),
        ensures
            final(self).logging_services == old(self).logging_services,
            final(self).message_services == old(self).message_services,
            exists|endpoint: Seq<char>|
                is_member(old(self).message_services@, endpoint) && url@ == #[trigger] url_of(
                    endpoint,
                    "messages"@,
                ),
    {
        let endpoint = self.select_message_service();
        url_for(endpoint.as_str(), "messages")
    }
}

} // verus!
