//! The record built for each inbound message, and what is published for it.

use crate::consumer::TOPIC;
use vstd::prelude::*;

verus! {

/// An inbound message with the identifier generated for it.
pub struct Record {
    pub uuid: String,
    pub msg: String,
}

/// The characters of a record's identifier and text.
pub ghost struct RecordText {
    pub uuid: Seq<char>,
    pub msg: Seq<char>,
}

impl View for Record {
    type V = RecordText;

    open spec fn view(&self) -> RecordText {
        RecordText { uuid: self.uuid@, msg: self.msg@ }
    }
}

/// What is handed to the event log for one record.
pub struct OutgoingRecord {
    pub topic: String,
    pub key: String,
    pub payload: String,
    /// Seconds to wait for room in the send queue; zero means no wait.
    pub timeout_secs: u64,
}

/// A lower-case hexadecimal digit.
pub open spec fn is_hex_digit(c: char) -> bool {
    ('0' <= c && c <= '9') || ('a' <= c && c <= 'f')
}

/// The hyphenated lower-case text of a random (version 4) UUID:
/// `xxxxxxxx-xxxx-4xxx-Nxxx-xxxxxxxxxxxx` with `N` one of `8`, `9`, `a`, `b`.
pub open spec fn is_v4_text(text: Seq<char>) -> bool {
    &&& text.len() == 36
    &&& forall|i: int|
        0 <= i < 36 ==> if i == 8 || i == 13 || i == 18 || i == 23 {
            #[trigger] text[i] == '-'
        } else {
            is_hex_digit(text[i])
        }
    &&& text[14] == '4'
    &&& (text[19] == '8' || text[19] == '9' || text[19] == 'a' || text[19] == 'b')
}

/// Generates an identifier with uuid's `Uuid::new_v4` and writes it with
/// its `Display`: 36 characters, hyphenated, lower-case hexadecimal, with
/// the version and variant that `new_v4` sets. The remaining digits are
/// random and nothing is claimed of them.
#[verifier::external_body]
fn fresh_id() -> (id: String)
    ensures
        is_v4_text(id@),
{
    uuid::Uuid::new_v4().to_string()
}

impl Record {
    /// The record for an inbound text, under a fresh random identifier.
    pub fn fresh(msg: &str) -> (record: Record)
        ensures
            record.msg@ == msg@,
            is_v4_text(record.uuid@),
    {
        Record { uuid: fresh_id(), msg: msg.to_owned() }
    }
}

/// What is published for a serialised record: topic `messages`, an empty
/// key, the payload as given, and no wait.
pub fn outgoing_record(payload: &str) -> (out: OutgoingRecord)
    ensures
        out.topic@ == TOPIC@,
        out.key@.len() == 0,
        out.payload@ == payload@,
        out.timeout_secs == 0,
{
    proof {
        reveal_strlit("");
    }
    OutgoingRecord {
        topic: TOPIC.to_owned(),
        key: "".to_owned(),
        payload: payload.to_owned(),
        timeout_secs: 0,
    }
}

} // verus!
