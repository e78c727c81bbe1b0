//! One stored entry, as the store returns it.
use base64::Engine;
use vstd::prelude::*;

use crate::error::KvError;
use crate::json::{json_from_bytes, json_member, json_unsigned, json_text, member_of, parse_bytes, text_of, unsigned_of};

verus! {

/// A record, seen as plain values.
pub struct RecordView {
    pub create_index: usize,
    pub flags: usize,
    pub key: Seq<char>,
    pub lock_index: usize,
    pub modify_index: usize,
    /// The stored value, in base64.
    pub value: Seq<char>,
}

/// One key-value entry with its metadata. The value is kept as the store sends
/// it, in base64, and decoded only on request.
#[derive(Debug)]
pub struct Record {
    create_index: usize,
    flags: usize,
    key: String,
    lock_index: usize,
    modify_index: usize,
    value: String,
}

impl View for Record {
    type V = RecordView;

    closed spec fn view(&self) -> RecordView {
        RecordView {
            create_index: self.create_index,
            flags: self.flags,
            key: self.key@,
            lock_index: self.lock_index,
            modify_index: self.modify_index,
            value: self.value@,
        }
    }
}

#[verifier::external_type_specification]
#[verifier::external_body]
pub struct ExDecodeError(base64::DecodeError);

/// The bytes that base64 text decodes to, under the standard alphabet with padding.
pub uninterp spec fn base64_decoded(s: Seq<char>) -> Option<Seq<u8>>;

/// Relies on `base64`'s `STANDARD` engine and its `decode`: the bytes, or an error
/// for text that is not valid padded standard base64.
#[verifier::external_body]
fn decode_base64(s: &str) -> (r: Result<Vec<u8>, base64::DecodeError>)
    ensures
        match r {
            Ok(b) => base64_decoded(s@) == Some(b@),
            Err(_) => base64_decoded(s@) is None,
        },
{
    base64::engine::general_purpose::STANDARD.decode(s)
}

/// A member of a JSON object that holds an index: a non-negative integer that
/// fits a `usize`.
pub open spec fn index_field(v: serde_json::Value, name: Seq<char>) -> Option<usize> {
    match json_member(v, name) {
        Some(f) => match json_unsigned(f) {
            Some(n) => if n <= usize::MAX {
                Some(n as usize)
            } else {
                None
            },
            None => None,
        },
        None => None,
    }
}

/// A member of a JSON object that holds a string.
pub open spec fn text_field(v: serde_json::Value, name: Seq<char>) -> Option<Seq<char>> {
    match json_member(v, name) {
        Some(f) => json_text(f),
        None => None,
    }
}

/// The record that a JSON object describes: the members `CreateIndex`, `Flags`,
/// `Key`, `LockIndex`, `ModifyIndex` and `Value` must all be there with the right
/// kind of value; other members are ignored. A record must be a JSON object.
pub open spec fn record_from_json(v: serde_json::Value) -> Option<RecordView> {
    match (
        index_field(v, "CreateIndex"@),
        index_field(v, "Flags"@),
        text_field(v, "Key"@),
        index_field(v, "LockIndex"@),
        index_field(v, "ModifyIndex"@),
        text_field(v, "Value"@),
    ) {
        (Some(c), Some(f), Some(k), Some(l), Some(m), Some(val)) => Some(
            RecordView {
                create_index: c,
                flags: f,
                key: k,
                lock_index: l,
                modify_index: m,
                value: val,
            },
        ),
        _ => None,
    }
}

/// What `Record::value` yields for a record: the JSON document that the decoded
/// bytes hold.
pub open spec fn decoded_value(r: RecordView) -> Result<serde_json::Value, KvError> {
    match base64_decoded(r.value) {
        None => Err(KvError::Base64),
        Some(b) => match json_from_bytes(b) {
            Some(v) => Ok(v),
            None => Err(KvError::Json),
        },
    }
}

fn index_member(v: &serde_json::Value, name: &str) -> (r: Option<usize>)
    ensures
        r == index_field(*v, name@),
{
    match member_of(v, name) {
        Some(f) => match unsigned_of(f) {
            Some(n) => if n <= usize::MAX as u64 {
                Some(n as usize)
            } else {
                None
            },
            None => None,
        },
        None => None,
    }
}

fn text_member(v: &serde_json::Value, name: &str) -> (r: Option<String>)
    ensures
        match r {
            Some(s) => text_field(*v, name@) == Some(s@),
            None => text_field(*v, name@) is None,
        },
{
    match member_of(v, name) {
        Some(f) => match text_of(f) {
            Some(s) => Some(s.to_owned()),
            None => None,
        },
        None => None,
    }
}

impl Record {
    /// Reads a record out of one JSON object; `None` where a member is missing or
    /// of the wrong kind.
    pub fn from_json(v: &serde_json::Value) -> (r: Option<Record>)
        ensures
            match r {
                Some(rec) => record_from_json(*v) == Some(rec@),
                None => record_from_json(*v) is None,
            },
    {
        let create_index = match index_member(v, "CreateIndex") {
            Some(n) => n,
            None => return None,
        };
        let flags = match index_member(v, "Flags") {
            Some(n) => n,
            None => return None,
        };
        let key = match text_member(v, "Key") {
            Some(s) => s,
            None => return None,
        };
        let lock_index = match index_member(v, "LockIndex") {
            Some(n) => n,
            None => return None,
        };
        let modify_index = match index_member(v, "ModifyIndex") {
            Some(n) => n,
            None => return None,
        };
        let value = match text_member(v, "Value") {
            Some(s) => s,
            None => return None,
        };
        Some(Record { create_index, flags, key, lock_index, modify_index, value })
    }

    pub fn create_index(&self) -> (r: usize)
        ensures
            r == self@.create_index,
    {
        self.create_index
    }

    pub fn flags(&self) -> (r: usize)
        ensures
            r == self@.flags,
    {
        self.flags
    }

    pub fn key(&self) -> (r: &str)
        ensures
            r@ == self@.key,
    {
        self.key.as_str()
    }

    pub fn lock_index(&self) -> (r: usize)
        ensures
            r == self@.lock_index,
    {
        self.lock_index
    }

    pub fn modify_index(&self) -> (r: usize)
        ensures
            r == self@.modify_index,
    {
        self.modify_index
    }

    /// The stored value decoded from base64 into bytes.
    pub fn value_as_slice(&self) -> (r: Result<Vec<u8>, KvError>)
        ensures
            match r {
                Ok(b) => base64_decoded(self@.value) == Some(b@),
                Err(e) => base64_decoded(self@.value) is None && e == KvError::Base64,
            },
    {
        match decode_base64(self.value.as_str()) {
            Ok(b) => Ok(b),
            Err(_) => Err(KvError::Base64),
        }
    }

    /// The stored value decoded from base64 and then parsed as JSON.
    pub fn value(&self) -> (r: Result<serde_json::Value, KvError>)
        ensures
            r == decoded_value(self@),
    {
        let bytes = self.value_as_slice()?;
        match parse_bytes(bytes.as_slice()) {
            Ok(v) => Ok(v),
            Err(_) => Err(KvError::Json),
        }
    }
}

} // verus!
