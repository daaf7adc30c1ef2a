//! The JSON texts that leave the services: a record as it is forwarded and
//! published, and the list of buffered events as it is read back.

use crate::buffer::{texts, EventText, IngestionBuffer, StoredEvent};
use crate::record::Record;
use vstd::prelude::*;
use vstd::string::StringExecFns;

verus! {

/// The JSON string literal that serde_json writes for a text, or `None`
/// where it reports an error.
pub uninterp spec fn json_text(text: Seq<char>) -> Option<Seq<char>>;

/// The characters of a text that may be missing.
pub open spec fn chars_of(text: Option<String>) -> Option<Seq<char>> {
    match text {
        Some(t) => Some(t@),
        None => None,
    }
}

/// `{"uuid":U,"msg":M}` from the two quoted fields.
pub open spec fn record_object(uuid: Option<Seq<char>>, msg: Option<Seq<char>>) -> Option<
    Seq<char>,
> {
    match (uuid, msg) {
        (Some(u), Some(m)) => Some("{\"uuid\":"@ + u + ",\"msg\":"@ + m + "}"@),
        _ => None,
    }
}

/// `{"key":K,"value":V}` from the two quoted fields.
pub open spec fn event_object(key: Option<Seq<char>>, value: Option<Seq<char>>) -> Option<
    Seq<char>,
> {
    match (key, value) {
        (Some(k), Some(v)) => Some("{\"key\":"@ + k + ",\"value\":"@ + v + "}"@),
        _ => None,
    }
}

/// The JSON objects of `events`, separated by commas; `None` where one of
/// them cannot be serialised.
pub open spec fn event_list(events: Seq<EventText>) -> Option<Seq<char>>
    decreases events.len(),
{
    if events.len() == 0 {
        Some(Seq::empty())
    } else {
        let last = events.last();
        match (
            event_list(events.drop_last()),
            event_object(json_text(last.key), json_text(last.value)),
        ) {
            (Some(before), Some(object)) => Some(
                if events.len() == 1 {
                    object
                } else {
                    before + ","@ + object
                },
            ),
            _ => None,
        }
    }
}

/// The body of a read-back response: the JSON array of the events, or `[]`
/// where they cannot be serialised.
pub open spec fn messages_body(events: Seq<EventText>) -> Seq<char> {
    match event_list(events) {
        Some(list) => "["@ + list + "]"@,
        None => "[]"@,
    }
}

/// Serialises a text with serde_json's `to_string`; an error becomes
/// `None`. The result is a function of the text alone and goes by the name
/// `json_text`.
#[verifier::external_body]
fn quote_json(text: &str) -> (quoted: Option<String>)
    ensures
        quoted is Some <==> json_text(text@) is Some,
        quoted matches Some(q) ==> json_text(text@) == Some(q@),
{
    serde_json::to_string(text).ok()
}

/// Joins two quoted fields into a JSON object with the member names
/// `first` and `second`.
fn object_of(
    first: &str,
    quoted_first: &Option<String>,
    second: &str,
    quoted_second: &Option<String>,
) -> (object: Option<String>)
    ensures
        match (*quoted_first, *quoted_second) {
            (Some(a), Some(b)) => object matches Some(o) && o@ == "{\""@ + first@ + "\":"@ + a@
                + ",\""@ + second@ + "\":"@ + b@ + "}"@,
            _ => object is None,
        },
{
    match (quoted_first, quoted_second) {
        (Some(a), Some(b)) => {
            let mut object = "{\"".to_owned();
            object.append(first);
            object.append("\":");
            object.append(a.as_str());
            object.append(",\"");
            object.append(second);
            object.append("\":");
            object.append(b.as_str());
            object.append("}");
            Some(object)
        },
        _ => None,
    }
}

/// The JSON object of a record from its two fields as serde_json quoted
/// them; `None` where either could not be quoted.
pub fn assemble_record(quoted_uuid: Option<String>, quoted_msg: Option<String>) -> (object: Option<
    String,
>)
    ensures
        object is Some <==> quoted_uuid is Some && quoted_msg is Some,
        chars_of(object) == record_object(
            chars_of(quoted_uuid),
            chars_of(quoted_msg),
        ),
{
    proof {
        reveal_strlit("{\"");
        reveal_strlit("uuid");
        reveal_strlit("msg");
        reveal_strlit("\":");
        reveal_strlit(",\"");
        reveal_strlit("}");
        reveal_strlit("{\"uuid\":");
        reveal_strlit(",\"msg\":");
    }
    let object = object_of("uuid", &quoted_uuid, "msg", &quoted_msg);
    proof {
        if let (Some(a), Some(b)) = (quoted_uuid, quoted_msg) {
            assert(object.unwrap()@ =~= "{\"uuid\":"@ + a@ + ",\"msg\":"@ + b@ + "}"@);
        }
    }
    object
}

/// The JSON object of a stored event from its two fields as serde_json
/// quoted them; `None` where either could not be quoted.
pub fn assemble_event(quoted_key: Option<String>, quoted_value: Option<String>) -> (object: Option<
    String,
>)
    ensures
        object is Some <==> quoted_key is Some && quoted_value is Some,
        chars_of(object) == event_object(
            chars_of(quoted_key),
            chars_of(quoted_value),
        ),
{
    proof {
        reveal_strlit("{\"");
        reveal_strlit("key");
        reveal_strlit("value");
        reveal_strlit("\":");
        reveal_strlit(",\"");
        reveal_strlit("}");
        reveal_strlit("{\"key\":");
        reveal_strlit(",\"value\":");
    }
    let object = object_of("key", &quoted_key, "value", &quoted_value);
    proof {
        if let (Some(a), Some(b)) = (quoted_key, quoted_value) {
            assert(object.unwrap()@ =~= "{\"key\":"@ + a@ + ",\"value\":"@ + b@ + "}"@);
        }
    }
    object
}

impl StoredEvent {
    /// The event as JSON, `{"key":..,"value":..}`, each field quoted by
    /// serde_json.
    pub fn to_json(&self) -> (object: Option<String>)
        ensures
            chars_of(object) == event_object(json_text(self.key@), json_text(self.value@)),
    {
        assemble_event(quote_json(self.key.as_str()), quote_json(self.value.as_str()))
    }
}

/// The body of a read-back response for these events.
pub fn render_events(events: &Vec<StoredEvent>) -> (body: String)
    ensures
        body@ == messages_body(texts(events@)),
{
    let ghost all = texts(events@);
    let mut list = "".to_owned();
    proof {
        reveal_strlit("");
        assert(list@ =~= Seq::<char>::empty());
        assert(all.take(0) =~= Seq::<EventText>::empty());
    }
    let mut i: usize = 0;
    while i < events.len()
        invariant
            i <= events.len(),
            all == texts(events@),
            event_list(all.take(i as int)) == Some(list@),
        decreases events.len() - i,
    {
        proof {
            assert(all.take(i + 1).drop_last() =~= all.take(i as int));
            assert(all.take(i + 1).last() == events@[i as int]@);
        }
        match events[i].to_json() {
            Some(object) => {
                if i > 0 {
                    list.append(",");
                }
                list.append(object.as_str());
                proof {
                    assert(list@ =~= event_list(all.take(i + 1)).unwrap());
                }
            },
            None => {
                proof {
                    lemma_event_list_fails_on(all, i as int);
                }
                return "[]".to_owned();
            },
        }
        i = i + 1;
    }
    proof {
        assert(all.take(i as int) =~= all);
    }
    let mut body = "[".to_owned();
    body.append(list.as_str());
    body.append("]");
    body
}

/// Where the event at position `at` cannot be serialised, neither can the
/// list.
proof fn lemma_event_list_fails_on(events: Seq<EventText>, at: int)
    requires
        0 <= at < events.len(),
        event_object(json_text(events[at].key), json_text(events[at].value)) is None,
    ensures
        event_list(events) is None,
    decreases events.len(),
{
    if at < events.len() - 1 {
        lemma_event_list_fails_on(events.drop_last(), at);
    }
}

impl IngestionBuffer {
    /// The body of a read-back response: the retained events as a JSON
    /// array, oldest first.
    pub fn render(&self) -> (body: String)
        requires
            self.wf(),
        ensures
            body@ == messages_body(self@),
    {
        let events = self.snapshot();
        render_events(&events)
    }
}

impl Record {
    /// The record as JSON, `{"uuid":..,"msg":..}`, each field quoted by
    /// serde_json.
    pub fn to_json(&self) -> (object: Option<String>)
        ensures
            chars_of(object) == record_object(json_text(self.uuid@), json_text(self.msg@)),
    {
        assemble_record(quote_json(self.uuid.as_str()), quote_json(self.msg.as_str()))
    }
}

} // verus!
