//! The envelope of a completed exchange, and what the verbs read out of it.
use vstd::prelude::*;

use crate::error::KvError;
use crate::json::{elements_of, json_elements, json_from_text, parse_text};
use crate::record::{record_from_json, Record, RecordView};

verus! {

/// A response, seen as plain values.
pub struct ResponseView {
    pub status: u16,
    pub json: Option<serde_json::Value>,
    pub raw: Seq<char>,
}

/// The status, the full text and, where the text is JSON, the parsed body of a
/// response.
#[derive(Debug)]
pub struct Response {
    status: u16,
    json: Option<serde_json::Value>,
    raw: String,
}

impl View for Response {
    type V = ResponseView;

    closed spec fn view(&self) -> ResponseView {
        ResponseView { status: self.status, json: self.json, raw: self.raw@ }
    }
}

/// The status that means that nothing is stored under the key.
pub const NOT_FOUND: u16 = 404;

/// The records that a list of JSON objects describes; an error where the value
/// is no list or one of its elements is no well-formed record.
pub open spec fn records_from_json(v: serde_json::Value) -> Result<Seq<RecordView>, KvError> {
    match json_elements(v) {
        None => Err(KvError::Shape),
        Some(items) => if forall|i: int| 0 <= i < items.len() ==> (#[trigger] record_from_json(items[i])) is Some {
            Ok(Seq::new(items.len(), |i: int| record_from_json(items[i])->0))
        } else {
            Err(KvError::Shape)
        },
    }
}

/// The records of a response body: an error where there is no JSON.
pub open spec fn records_of(json: Option<serde_json::Value>) -> Result<Seq<RecordView>, KvError> {
    match json {
        None => Err(KvError::NoJson),
        Some(v) => records_from_json(v),
    }
}

/// The views of a list of records.
pub open spec fn records_view(rs: Seq<Record>) -> Seq<RecordView> {
    rs.map_values(|r: Record| r@)
}

/// What fetching one key yields: nothing on 404, else the last record of the
/// body, or nothing where the list is empty.
pub open spec fn fetched(r: ResponseView) -> Result<Option<RecordView>, KvError> {
    if r.status == NOT_FOUND {
        Ok(None)
    } else {
        match records_of(r.json) {
            Err(e) => Err(e),
            Ok(rs) => if rs.len() == 0 {
                Ok(None)
            } else {
                Ok(Some(rs.last()))
            },
        }
    }
}

/// What listing yields: no record on 404, else the records of the body.
pub open spec fn listed(r: ResponseView) -> Result<Seq<RecordView>, KvError> {
    if r.status == NOT_FOUND {
        Ok(Seq::empty())
    } else {
        records_of(r.json)
    }
}

/// A key or prefix that the store does not hold, which it answers with 404, is
/// no error: fetching it yields no record and listing it yields an empty list,
/// whatever the body of the response.
pub proof fn lemma_absence_is_not_an_error(r: ResponseView)
    requires
        r.status == NOT_FOUND,
    ensures
        fetched(r) == Ok::<Option<RecordView>, KvError>(None),
        listed(r) == Ok::<Seq<RecordView>, KvError>(Seq::empty()),
{
}

/// Reads every record out of a JSON list.
pub fn decode_records(v: &serde_json::Value) -> (r: Result<Vec<Record>, KvError>)
    ensures
        match records_from_json(*v) {
            Ok(s) => (r matches Ok(rs) && records_view(rs@) == s),
            Err(e) => r == Err::<Vec<Record>, KvError>(e),
        },
{
    let items = match elements_of(v) {
        Some(a) => a,
        None => return Err(KvError::Shape),
    };
    let mut out: Vec<Record> = Vec::new();
    let mut i: usize = 0;
    while i < items.len()
        invariant
            i <= items@.len(),
            json_elements(*v) == Some(items@),
            out@.len() == i,
            forall|j: int| 0 <= j < i ==> record_from_json(items@[j]) == Some(#[trigger] out@[j]@),
        decreases items.len() - i,
    {
        match Record::from_json(&items[i]) {
            Some(rec) => {
                out.push(rec);
            },
            None => {
                assert(record_from_json(items@[i as int]) is None);
                return Err(KvError::Shape);
            },
        }
        i += 1;
    }
    assert forall|j: int| 0 <= j < items@.len() implies (#[trigger] record_from_json(items@[j])) is Some by {
        assert(record_from_json(items@[j]) == Some(out@[j]@));
    }
    assert(records_view(out@) =~= Seq::new(items@.len(), |j: int| record_from_json(items@[j])->0));
    Ok(out)
}

impl Response {
    /// The envelope of a response with this status and text; the text is
    /// parsed as JSON where it is JSON.
    pub fn from_parts(status: u16, raw: String) -> (r: Response)
        ensures
            r@ == (ResponseView { status, json: json_from_text(raw@), raw: raw@ }),
    {
        let json = match parse_text(raw.as_str()) {
            Ok(v) => Some(v),
            Err(_) => None,
        };
        Response { status, json, raw }
    }

    pub fn raw(self) -> (r: String)
        ensures
            r@ == self@.raw,
    {
        self.raw
    }

    pub fn json(self) -> (r: Option<serde_json::Value>)
        ensures
            r == self@.json,
    {
        self.json
    }

    pub fn status(self) -> (r: u16)
        ensures
            r == self@.status,
    {
        self.status
    }

    pub fn is_success(&self) -> (r: bool)
        ensures
            r == (self@.status == 200),
    {
        self.status == 200
    }

    /// The records of the body, whatever the status.
    pub fn into_records(self) -> (r: Result<Vec<Record>, KvError>)
        ensures
            match records_of(self@.json) {
                Ok(s) => (r matches Ok(rs) && records_view(rs@) == s),
                Err(e) => r == Err::<Vec<Record>, KvError>(e),
            },
    {
        match self.json {
            Some(v) => decode_records(&v),
            None => Err(KvError::NoJson),
        }
    }

    /// The record that a fetch of one key found, read from its response.
    pub fn into_found(self) -> (r: Result<Option<Record>, KvError>)
        ensures
            match fetched(self@) {
                Ok(Some(x)) => (r matches Ok(Some(rec)) && rec@ == x),
                Ok(None) => r matches Ok(None),
                Err(e) => r matches Err(f) && f == e,
            },
    {
        if self.status == NOT_FOUND {
            return Ok(None);
        }
        let mut rs = self.into_records()?;
        let ghost before = rs@;
        let last = rs.pop();
        proof {
            if before.len() > 0 {
                assert(records_view(before).last() == before.last()@);
            }
        }
        Ok(last)
    }

    /// The records that a listing found, read from its response.
    pub fn into_listing(self) -> (r: Result<Vec<Record>, KvError>)
        ensures
            match listed(self@) {
                Ok(s) => (r matches Ok(rs) && records_view(rs@) == s),
                Err(e) => r == Err::<Vec<Record>, KvError>(e),
            },
    {
        if self.status == NOT_FOUND {
            let empty: Vec<Record> = Vec::new();
            assert(records_view(empty@) =~= Seq::empty());
            return Ok(empty);
        }
        self.into_records()
    }
}

} // verus!
