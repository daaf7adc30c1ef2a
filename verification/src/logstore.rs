//! The log store's read side: turning what the key/value store returned
//! into the list of logged records.

use crate::record::{Record, RecordText};
use vstd::prelude::*;

verus! {

/// The records among `entries`: one for each key whose value could be
/// read, in the order of the keys.
pub open spec fn readable(entries: Seq<(String, Option<String>)>) -> Seq<RecordText>
    decreases entries.len(),
{
    if entries.len() == 0 {
        Seq::empty()
    } else {
        let before = readable(entries.drop_last());
        match entries.last().1 {
            Some(msg) => before.push(RecordText { uuid: entries.last().0@, msg: msg@ }),
            None => before,
        }
    }
}

/// The texts of a sequence of records, in the same order.
pub open spec fn record_texts(records: Seq<Record>) -> Seq<RecordText> {
    records.map_values(|record: Record| record@)
}

/// Builds the list of logged records from the keys of the store, each with
/// the value read for it or `None` where the read failed. A key whose value
/// could not be read is left out.
pub fn collect_records(entries: &Vec<(String, Option<String>)>) -> (records: Vec<Record>)
    ensures
        record_texts(records@) == readable(entries@),
{
    let mut records: Vec<Record> = Vec::new();
    let mut i: usize = 0;
    proof {
        assert(entries@.take(0) =~= Seq::<(String, Option<String>)>::empty());
        assert(record_texts(records@) =~= Seq::<RecordText>::empty());
    }
    while i < entries.len()
        invariant
            i <= entries.len(),
            record_texts(records@) == readable(entries@.take(i as int)),
        decreases entries.len() - i,
    {
        proof {
            assert(entries@.take(i + 1).drop_last() =~= entries@.take(i as int));
            assert(entries@.take(i + 1).last() == entries@[i as int]);
        }
        let ghost before = records@;
        let entry = &entries[i];
        match &entry.1 {
            Some(msg) => {
                let record = Record { uuid: entry.0.clone(), msg: msg.clone() };
                records.push(record);
                proof {
                    assert(record_texts(records@) =~= record_texts(before).push(record@));
                }
            },
            None => {},
        }
        i = i + 1;
    }
    proof {
        assert(entries@.take(i as int) =~= entries@);
    }
    records
}

} // verus!
