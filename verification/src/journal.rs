//! Entries in the log of a job.

use crate::json::{Json, JsonView};
use crate::text;
use vstd::prelude::*;

verus! {

/// An entry in the log of a job.
#[derive(Debug)]
pub struct Record {
    pub event: String,
    pub artifact_path: Option<String>,
    pub error: Option<String>,
    pub fields: Json,
}

/// The mathematical form of an entry.
#[verifier::ext_equal]
pub struct RecordView {
    pub event: Seq<char>,
    pub artifact_path: Option<Seq<char>>,
    pub error: Option<Seq<char>>,
    pub fields: JsonView,
}

impl View for Record {
    type V = RecordView;

    open spec fn view(&self) -> RecordView {
        RecordView {
            event: self.event@,
            artifact_path: text::view_opt(self.artifact_path),
            error: text::view_opt(self.error),
            fields: self.fields@,
        }
    }
}

/// The views of a list of entries.
pub open spec fn records_view(v: Seq<Record>) -> Seq<RecordView> {
    v.map_values(|r: Record| r@)
}

/// An entry that names no file.
pub open spec fn entry(event: Seq<char>, error: Option<Seq<char>>, fields: JsonView) -> RecordView {
    RecordView { event, artifact_path: None, error, fields }
}

/// An entry that names a file.
pub open spec fn entry_at(
    event: Seq<char>,
    path: Seq<char>,
    error: Option<Seq<char>>,
    fields: JsonView,
) -> RecordView {
    RecordView { event, artifact_path: Some(path), error, fields }
}

/// Adds an entry that names no file.
pub fn note(records: &mut Vec<Record>, event: &str, error: Option<String>, fields: Json)
    ensures
        records_view(final(records)@) == records_view(old(records)@).push(
            entry(event@, text::view_opt(error), fields@),
        ),
{
    let record = Record { event: event.to_owned(), artifact_path: None, error, fields };
    records.push(record);
    assert(records_view(records@) =~= records_view(old(records)@).push(
        entry(event@, text::view_opt(error), fields@),
    ));
}

/// Adds an entry that names a file.
pub fn note_at(
    records: &mut Vec<Record>,
    event: &str,
    path: &str,
    error: Option<String>,
    fields: Json,
)
    ensures
        records_view(final(records)@) == records_view(old(records)@).push(
            entry_at(event@, path@, text::view_opt(error), fields@),
        ),
{
    let record = Record {
        event: event.to_owned(),
        artifact_path: Some(path.to_owned()),
        error,
        fields,
    };
    records.push(record);
    assert(records_view(records@) =~= records_view(old(records)@).push(
        entry_at(event@, path@, text::view_opt(error), fields@),
    ));
}

/// An empty log.
pub fn no_records() -> (r: Vec<Record>)
    ensures
        records_view(r@) == Seq::<RecordView>::empty(),
{
    let r: Vec<Record> = Vec::new();
    assert(records_view(r@) =~= Seq::<RecordView>::empty());
    r
}

} // verus!
