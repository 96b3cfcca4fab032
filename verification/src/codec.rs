//! The wire form of a share: one JSON object with the members `from`,
//! `content` and `timestamp`, in that order.
//!
//! A reader also takes the three values as a JSON array in that order, and
//! ignores members of an object that it does not know.

use crate::json::{
    first_under, flat_record, json_of, json_parse, json_text, member, parse_value, render_value,
    value_as_array, value_as_str, value_as_u64, value_from_members, value_from_text,
    value_from_u64, value_is_object, value_member, Json,
};
use crate::share::{Share, ShareView};
use vstd::prelude::*;
use vstd::string::StringExecFns;

verus! {

/// Why bytes were not read as a share.
#[derive(Debug, Clone, Copy, PartialEq, Eq, Structural)]
pub enum DecodeError {
    /// The bytes are not one JSON document.
    Malformed,
    /// The document is neither an object nor an array of three items.
    NotRecord,
    /// The object lacks one of the three members.
    MissingField,
    /// A value is not of the kind that its place asks for, or a sender's
    /// number is too large for this machine.
    WrongType,
}

/// The document of a share.
pub open spec fn share_doc(s: ShareView) -> Json {
    Json::Object(
        seq![
            ("from"@, Json::Unsigned(s.from as u64)),
            ("content"@, Json::Text(s.content)),
            ("timestamp"@, Json::Unsigned(s.timestamp as u64)),
        ],
    )
}

/// A document read as an unsigned integer.
pub open spec fn as_number(doc: Option<Json>) -> Result<u64, DecodeError> {
    match doc {
        None => Err(DecodeError::MissingField),
        Some(Json::Unsigned(n)) => Ok(n),
        Some(_) => Err(DecodeError::WrongType),
    }
}

/// A document read as a text.
pub open spec fn as_text(doc: Option<Json>) -> Result<Seq<char>, DecodeError> {
    match doc {
        None => Err(DecodeError::MissingField),
        Some(Json::Text(s)) => Ok(s),
        Some(_) => Err(DecodeError::WrongType),
    }
}

/// The share made of three values that were found, or the error of the
/// first of them that is missing or of the wrong kind.
pub open spec fn share_of_parts(from: Option<Json>, content: Option<Json>, timestamp: Option<Json>)
    -> Result<ShareView, DecodeError> {
    match as_number(from) {
        Err(e) => Err(e),
        Ok(f) => if f > usize::MAX {
            Err(DecodeError::WrongType)
        } else {
            match as_text(content) {
                Err(e) => Err(e),
                Ok(c) => match as_number(timestamp) {
                    Err(e) => Err(e),
                    Ok(t) => Ok(ShareView { from: f as nat, content: c, timestamp: t as nat }),
                },
            }
        },
    }
}

/// The share that a document stands for.
pub open spec fn share_of_doc(doc: Json) -> Result<ShareView, DecodeError> {
    match doc {
        Json::Object(_) => share_of_parts(
            member(doc, "from"@),
            member(doc, "content"@),
            member(doc, "timestamp"@),
        ),
        Json::Array(items) => if items.len() == 3 {
            share_of_parts(Some(items[0]), Some(items[1]), Some(items[2]))
        } else {
            Err(DecodeError::NotRecord)
        },
        _ => Err(DecodeError::NotRecord),
    }
}

/// The share that bytes stand for.
pub open spec fn decode_spec(bytes: Seq<u8>) -> Result<ShareView, DecodeError> {
    match json_parse(bytes) {
        None => Err(DecodeError::Malformed),
        Some(doc) => share_of_doc(doc),
    }
}

/// The bytes of a share on the wire.
pub open spec fn encode_spec(s: ShareView) -> Seq<u8> {
    json_text(share_doc(s))
}

/// Whether an executable result is the one that the model gives.
pub open spec fn agrees(r: Result<Share, DecodeError>, m: Result<ShareView, DecodeError>) -> bool {
    match r {
        Ok(s) => m == Ok::<ShareView, DecodeError>(s@),
        Err(e) => m == Err::<ShareView, DecodeError>(e),
    }
}

/// The three member names differ from one another.
proof fn lemma_member_names()
    ensures
        "from"@ != "content"@,
        "from"@ != "timestamp"@,
        "content"@ != "timestamp"@,
        "from"@.len() == 4,
        "content"@.len() == 7,
        "timestamp"@.len() == 9,
{
    reveal_strlit("from");
    reveal_strlit("content");
    reveal_strlit("timestamp");
    assert("from"@.len() == 4);
    assert("content"@.len() == 7);
    assert("timestamp"@.len() == 9);
}

/// The document of a share is a flat record, and reads back as that share.
pub proof fn lemma_share_doc_reads_back(s: ShareView)
    requires
        s.from <= usize::MAX,
        s.timestamp <= u64::MAX,
    ensures
        flat_record(share_doc(s)),
        share_of_doc(share_doc(s)) == Ok::<ShareView, DecodeError>(s),
{
    lemma_member_names();
    let entries = share_doc(s)->Object_0;
    assert(entries.len() == 3);
    assert(entries.skip(1).len() == 2);
    assert(entries.skip(1)[0] == entries[1]);
    assert(entries.skip(1).skip(1).len() == 1);
    assert(entries.skip(1).skip(1)[0] == entries[2]);
    reveal_with_fuel(first_under, 4);
    assert(first_under(entries, "from"@) == Some(entries[0].1));
    assert(first_under(entries, "content"@) == Some(entries[1].1));
    assert(first_under(entries, "timestamp"@) == Some(entries[2].1));
}

/// The document of a value that may be absent.
pub open spec fn doc_of(v: Option<&serde_json::Value>) -> Option<Json> {
    match v {
        Some(x) => Some(json_of(*x)),
        None => None,
    }
}

fn number_of(v: Option<&serde_json::Value>) -> (r: Result<u64, DecodeError>)
    ensures
        r == as_number(doc_of(v)),
{
    match v {
        None => Err(DecodeError::MissingField),
        Some(x) => match value_as_u64(x) {
            Some(n) => Ok(n),
            None => Err(DecodeError::WrongType),
        },
    }
}

fn text_of(v: Option<&serde_json::Value>) -> (r: Result<String, DecodeError>)
    ensures
        match r {
            Ok(s) => as_text(doc_of(v)) == Ok::<Seq<char>, DecodeError>(s@),
            Err(e) => as_text(doc_of(v)) == Err::<Seq<char>, DecodeError>(e),
        },
{
    match v {
        None => Err(DecodeError::MissingField),
        Some(x) => match value_as_str(x) {
            Some(s) => Ok(String::from_str(s)),
            None => Err(DecodeError::WrongType),
        },
    }
}

fn share_from_parts(
    from: Option<&serde_json::Value>,
    content: Option<&serde_json::Value>,
    timestamp: Option<&serde_json::Value>,
) -> (r: Result<Share, DecodeError>)
    ensures
        agrees(r, share_of_parts(doc_of(from), doc_of(content), doc_of(timestamp))),
{
    let f = match number_of(from) {
        Ok(f) => f,
        Err(e) => { return Err(e); },
    };
    if f > usize::MAX as u64 {
        return Err(DecodeError::WrongType);
    }
    let c = match text_of(content) {
        Ok(c) => c,
        Err(e) => { return Err(e); },
    };
    let t = match number_of(timestamp) {
        Ok(t) => t,
        Err(e) => { return Err(e); },
    };
    Ok(Share { from: f as usize, content: c, timestamp: t })
}

/// Reads a share out of a parsed document: an object with the three members
/// (others are ignored), or an array of exactly the three values in order.
pub fn share_from_value(v: &serde_json::Value) -> (r: Result<Share, DecodeError>)
    ensures
        agrees(r, share_of_doc(json_of(*v))),
{
    if value_is_object(v) {
        share_from_parts(
            value_member(v, "from"),
            value_member(v, "content"),
            value_member(v, "timestamp"),
        )
    } else {
        match value_as_array(v) {
            Some(items) => {
                if items.len() == 3 {
                    share_from_parts(Some(&items[0]), Some(&items[1]), Some(&items[2]))
                } else {
                    Err(DecodeError::NotRecord)
                }
            },
            None => Err(DecodeError::NotRecord),
        }
    }
}

/// The document of a share, as a value ready to be written.
pub fn share_to_value(s: &Share) -> (r: serde_json::Value)
    ensures
        json_of(r) == share_doc(s@),
{
    let mut members: Vec<(String, serde_json::Value)> = Vec::new();
    members.push((String::from_str("from"), value_from_u64(s.from as u64)));
    members.push((String::from_str("content"), value_from_text(s.content.clone())));
    members.push((String::from_str("timestamp"), value_from_u64(s.timestamp)));
    proof {
        lemma_member_names();
    }
    let r = value_from_members(members);
    assert(json_of(r)->Object_0 =~= share_doc(s@)->Object_0);
    r
}

/// Encodes a share. The bytes are not empty and decode to the same share.
pub fn encode(s: &Share) -> (r: Vec<u8>)
    ensures
        r@ == encode_spec(s@),
        r@.len() > 0,
        decode_spec(r@) == Ok::<ShareView, DecodeError>(s@),
        decode_spec(encode_spec(s@)) == Ok::<ShareView, DecodeError>(s@),
{
    let v = share_to_value(s);
    proof {
        lemma_share_doc_reads_back(s@);
    }
    match render_value(&v) {
        Ok(bytes) => bytes,
        Err(_) => vstd::pervasive::unreached(),
    }
}

/// Decodes one share from exactly these bytes. Anything that is not a whole
/// record, empty input included, is an error; nothing makes it fail harder.
pub fn decode(bytes: &[u8]) -> (r: Result<Share, DecodeError>)
    ensures
        agrees(r, decode_spec(bytes@)),
        bytes@.len() == 0 ==> r == Err::<Share, DecodeError>(DecodeError::Malformed),
{
    match parse_value(bytes) {
        Ok(v) => share_from_value(&v),
        Err(_) => Err(DecodeError::Malformed),
    }
}

} // verus!
