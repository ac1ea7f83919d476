//! Event-to-record conversion: pure, total mappings from delivered
//! events (samples, queries, query replies, discovery announcements)
//! into the generic structured-value shape.
//!
//! Every wire byte-sequence field goes through the uniform byte/text
//! coercion of [`crate::value`]; field names and field order are fixed
//! and part of each function's contract.

use vstd::prelude::*;
use vstd::string::StringExecFns;
use vstd::utf8::{decode_utf8, valid_utf8};

use crate::value::{
    bytes_to_value, is_bool, is_bytes, is_coerced, is_error, is_int, is_nothing, is_text,
    utf8_diagnostic, Val,
};

verus! {

// ---------------------------------------------------------------------
// Event models
// ---------------------------------------------------------------------
/// Whether a sample carries a new value or a deletion.
#[derive(Clone, Copy, PartialEq, Eq, Structural, Debug)]
pub enum SampleKind {
    Put,
    Delete,
}

/// Identity of the entity a sample originated from.
#[derive(Debug, PartialEq, Eq)]
pub struct SourceId {
    pub zid: String,
    pub eid: u32,
}

/// One delivered data item for a subscribed key expression, with its
/// quality-of-service metadata, as plain values.
#[derive(Debug, PartialEq, Eq)]
pub struct Sample {
    pub keyexpr: String,
    pub kind: SampleKind,
    /// Congestion-control code of the publication (0 drop, 1 block).
    pub congestion: u8,
    /// Priority code of the publication (0..=7).
    pub priority: u8,
    pub reliable: bool,
    pub express: bool,
    pub attachment: Option<Vec<u8>>,
    pub payload: Vec<u8>,
    /// RFC 3339 rendering of the sample timestamp, when one was set.
    pub timestamp: Option<String>,
    pub source_id: Option<SourceId>,
    pub source_sn: Option<u32>,
    pub encoding: String,
}

/// One received query, as plain values: the full selector, the
/// ordered key/value parameters, and the optional body fields.
#[derive(Debug, PartialEq, Eq)]
pub struct Query {
    pub selector: String,
    pub parameters: Vec<(String, String)>,
    pub encoding: Option<String>,
    pub payload: Option<Vec<u8>>,
    pub attachment: Option<Vec<u8>>,
}

/// One reply to a query: a successful sample or an error payload.
#[derive(Debug, PartialEq, Eq)]
pub enum Reply {
    Success(Sample),
    Failure(Vec<u8>),
}

/// One discovery announcement received while scouting.
#[derive(Debug, PartialEq, Eq)]
pub struct Hello {
    pub zid: String,
    pub whatami: String,
    pub locators: Vec<String>,
}

// ---------------------------------------------------------------------
// Samples
// ---------------------------------------------------------------------
/// The label a sample kind is rendered as.
pub open spec fn kind_label(k: SampleKind) -> Seq<char> {
    match k {
        SampleKind::Put => "PUT"@,
        SampleKind::Delete => "DELETE"@,
    }
}

/// Render a sample kind.
pub fn kind_text(k: SampleKind) -> (r: String)
    ensures
        r@ == kind_label(k),
{
    match k {
        SampleKind::Put => "PUT".to_owned(),
        SampleKind::Delete => "DELETE".to_owned(),
    }
}

/// An optional wire byte sequence became the coerced value, or the
/// nothing value when absent.
pub open spec fn opt_coerced(v: Val, o: Option<Vec<u8>>) -> bool {
    match o {
        Some(b) => is_coerced(v, b@),
        None => is_nothing(v),
    }
}

/// An optional string became a text value, or the nothing value when
/// absent.
pub open spec fn opt_text(v: Val, o: Option<String>) -> bool {
    match o {
        Some(s) => is_text(v, s@),
        None => is_nothing(v),
    }
}

/// The record the source-info of a sample converts to: the source
/// identity as a nested record when present, and the source sequence
/// number when present.
pub open spec fn source_info_matches(v: Val, s: Sample) -> bool {
    &&& v matches Val::Record(fs)
    &&& fs@.len() == 2
    &&& fs@[0].0@ == "source_id"@
    &&& match s.source_id {
        Some(id) => {
            &&& fs@[0].1 matches Val::Record(idfs)
            &&& idfs@.len() == 2
            &&& idfs@[0].0@ == "zid"@
            &&& is_text(idfs@[0].1, id.zid@)
            &&& idfs@[1].0@ == "eid"@
            &&& is_int(idfs@[1].1, id.eid as int)
        },
        None => is_nothing(fs@[0].1),
    }
    &&& fs@[1].0@ == "source_sn"@
    &&& match s.source_sn {
        Some(sn) => is_int(fs@[1].1, sn as int),
        None => is_nothing(fs@[1].1),
    }
}

/// The record a sample converts to: eleven fields, in order.
pub open spec fn sample_record_matches(v: Val, s: Sample) -> bool {
    &&& v matches Val::Record(fs)
    &&& fs@.len() == 11
    &&& fs@[0].0@ == "keyexpr"@ && is_text(fs@[0].1, s.keyexpr@)
    &&& fs@[1].0@ == "kind"@ && is_text(fs@[1].1, kind_label(s.kind))
    &&& fs@[2].0@ == "congestion_control"@ && is_int(fs@[2].1, s.congestion as int)
    &&& fs@[3].0@ == "priority"@ && is_int(fs@[3].1, s.priority as int)
    &&& fs@[4].0@ == "reliable"@ && is_bool(fs@[4].1, s.reliable)
    &&& fs@[5].0@ == "express"@ && is_bool(fs@[5].1, s.express)
    &&& fs@[6].0@ == "attachment"@ && opt_coerced(fs@[6].1, s.attachment)
    &&& fs@[7].0@ == "payload"@ && is_coerced(fs@[7].1, s.payload@)
    &&& fs@[8].0@ == "timestamp"@ && opt_text(fs@[8].1, s.timestamp)
    &&& fs@[9].0@ == "source_info"@ && source_info_matches(fs@[9].1, s)
    &&& fs@[10].0@ == "encoding"@ && is_text(fs@[10].1, s.encoding@)
}

/// Convert an optional wire byte sequence with the uniform coercion.
fn opt_bytes_value(o: &Option<Vec<u8>>) -> (r: Val)
    ensures
        opt_coerced(r, *o),
{
    match o {
        Some(b) => bytes_to_value(b.as_slice()),
        None => Val::Nothing,
    }
}

/// Convert an optional string to a text value.
fn opt_text_value(o: &Option<String>) -> (r: Val)
    ensures
        opt_text(r, *o),
{
    match o {
        Some(s) => Val::Text(s.clone()),
        None => Val::Nothing,
    }
}

/// Convert a sample into its record, as
/// [`sample_record_matches`] describes.
pub fn sample_to_record(s: &Sample) -> (r: Val)
    ensures
        sample_record_matches(r, *s),
{
    let source_id_val = match &s.source_id {
        Some(id) => {
            let mut idfs: Vec<(String, Val)> = Vec::new();
            idfs.push(("zid".to_owned(), Val::Text(id.zid.clone())));
            idfs.push(("eid".to_owned(), Val::Int(id.eid as i64)));
            Val::Record(idfs)
        },
        None => Val::Nothing,
    };
    let source_sn_val = match &s.source_sn {
        Some(sn) => Val::Int(*sn as i64),
        None => Val::Nothing,
    };
    let mut sifs: Vec<(String, Val)> = Vec::new();
    sifs.push(("source_id".to_owned(), source_id_val));
    sifs.push(("source_sn".to_owned(), source_sn_val));
    let source_info_val = Val::Record(sifs);

    let mut fs: Vec<(String, Val)> = Vec::new();
    fs.push(("keyexpr".to_owned(), Val::Text(s.keyexpr.clone())));
    fs.push(("kind".to_owned(), Val::Text(kind_text(s.kind))));
    fs.push(("congestion_control".to_owned(), Val::Int(s.congestion as i64)));
    fs.push(("priority".to_owned(), Val::Int(s.priority as i64)));
    fs.push(("reliable".to_owned(), Val::Bool(s.reliable)));
    fs.push(("express".to_owned(), Val::Bool(s.express)));
    fs.push(("attachment".to_owned(), opt_bytes_value(&s.attachment)));
    fs.push(("payload".to_owned(), bytes_to_value(s.payload.as_slice())));
    fs.push(("timestamp".to_owned(), opt_text_value(&s.timestamp)));
    fs.push(("source_info".to_owned(), source_info_val));
    fs.push(("encoding".to_owned(), Val::Text(s.encoding.clone())));
    Val::Record(fs)
}

// ---------------------------------------------------------------------
// Queries
// ---------------------------------------------------------------------
/// The record a query converts to: the full selector, the parameters
/// as an ordered record of text values, and the optional body fields.
pub open spec fn query_record_matches(v: Val, q: Query) -> bool {
    &&& v matches Val::Record(fs)
    &&& fs@.len() == 5
    &&& fs@[0].0@ == "keyexpr"@ && is_text(fs@[0].1, q.selector@)
    &&& fs@[1].0@ == "parameters"@
    &&& (fs@[1].1 matches Val::Record(ps) && {
        &&& ps@.len() == q.parameters@.len()
        &&& forall|i: int|
            0 <= i < ps@.len() ==> (#[trigger] ps@[i]).0@ == q.parameters@[i].0@ && is_text(
                ps@[i].1,
                q.parameters@[i].1@,
            )
    })
    &&& fs@[2].0@ == "encoding"@ && opt_text(fs@[2].1, q.encoding)
    &&& fs@[3].0@ == "payload"@ && opt_coerced(fs@[3].1, q.payload)
    &&& fs@[4].0@ == "attachment"@ && opt_coerced(fs@[4].1, q.attachment)
}

/// Convert a query into its record, as [`query_record_matches`]
/// describes.
pub fn query_to_record(q: &Query) -> (r: Val)
    ensures
        query_record_matches(r, *q),
{
    let mut ps: Vec<(String, Val)> = Vec::new();
    let mut i: usize = 0;
    while i < q.parameters.len()
        invariant
            i <= q.parameters@.len(),
            ps@.len() == i,
            forall|j: int|
                0 <= j < i ==> (#[trigger] ps@[j]).0@ == q.parameters@[j].0@ && is_text(
                    ps@[j].1,
                    q.parameters@[j].1@,
                ),
        decreases q.parameters@.len() - i,
    {
        let pair = &q.parameters[i];
        ps.push((pair.0.clone(), Val::Text(pair.1.clone())));
        i = i + 1;
    }
    let mut fs: Vec<(String, Val)> = Vec::new();
    fs.push(("keyexpr".to_owned(), Val::Text(q.selector.clone())));
    fs.push(("parameters".to_owned(), Val::Record(ps)));
    fs.push(("encoding".to_owned(), opt_text_value(&q.encoding)));
    fs.push(("payload".to_owned(), opt_bytes_value(&q.payload)));
    fs.push(("attachment".to_owned(), opt_bytes_value(&q.attachment)));
    Val::Record(fs)
}

// ---------------------------------------------------------------------
// Replies
// ---------------------------------------------------------------------
/// The message embedded in the error value built from a reply-error
/// payload: the decoded text in a human-readable frame when the
/// payload is valid UTF-8, otherwise a description of the decode
/// failure.
pub open spec fn reply_error_message(p: Seq<u8>) -> Seq<char> {
    if valid_utf8(p) {
        "Reply error: '"@ + decode_utf8(p) + "'"@
    } else {
        "<Non UTF-8 error payload: "@ + utf8_diagnostic(p) + ">"@
    }
}

/// Build the error value for a reply-error payload. This is always an
/// error-kind value, never a success record.
pub fn reply_error_value(p: &Vec<u8>) -> (r: Val)
    ensures
        is_error(r, reply_error_message(p@)),
{
    match crate::value::bytes_to_text(p.as_slice()) {
        Ok(s) => {
            let mut m = "Reply error: '".to_owned();
            m.append(s.as_str());
            m.append("'");
            Val::Error(m)
        },
        Err(diag) => {
            let mut m = "<Non UTF-8 error payload: ".to_owned();
            m.append(diag.as_str());
            m.append(">");
            Val::Error(m)
        },
    }
}

/// The value a reply converts to: the sample record on success, the
/// framed error value on failure.
pub open spec fn reply_value_matches(v: Val, r: Reply) -> bool {
    match r {
        Reply::Success(s) => sample_record_matches(v, s),
        Reply::Failure(p) => is_error(v, reply_error_message(p@)),
    }
}

/// Convert a reply into its output value, as [`reply_value_matches`]
/// describes.
pub fn reply_to_value(r: &Reply) -> (v: Val)
    ensures
        reply_value_matches(v, *r),
{
    match r {
        Reply::Success(s) => sample_to_record(s),
        Reply::Failure(p) => reply_error_value(p),
    }
}

// ---------------------------------------------------------------------
// Discovery announcements
// ---------------------------------------------------------------------
/// The record a discovery announcement converts to: the announcing
/// peer's identifier, its role, and its locators in order.
pub open spec fn hello_record_matches(v: Val, h: Hello) -> bool {
    &&& v matches Val::Record(fs)
    &&& fs@.len() == 3
    &&& fs@[0].0@ == "zid"@ && is_text(fs@[0].1, h.zid@)
    &&& fs@[1].0@ == "whatami"@ && is_text(fs@[1].1, h.whatami@)
    &&& fs@[2].0@ == "locators"@
    &&& (fs@[2].1 matches Val::List(ls) && {
        &&& ls@.len() == h.locators@.len()
        &&& forall|i: int| 0 <= i < ls@.len() ==> is_text(#[trigger] ls@[i], h.locators@[i]@)
    })
}

/// Convert a discovery announcement into its record, as
/// [`hello_record_matches`] describes.
pub fn hello_to_record(h: &Hello) -> (r: Val)
    ensures
        hello_record_matches(r, *h),
{
    let mut ls: Vec<Val> = Vec::new();
    let mut i: usize = 0;
    while i < h.locators.len()
        invariant
            i <= h.locators@.len(),
            ls@.len() == i,
            forall|j: int| 0 <= j < i ==> is_text(#[trigger] ls@[j], h.locators@[j]@),
        decreases h.locators@.len() - i,
    {
        ls.push(Val::Text(h.locators[i].clone()));
        i = i + 1;
    }
    let mut fs: Vec<(String, Val)> = Vec::new();
    fs.push(("zid".to_owned(), Val::Text(h.zid.clone())));
    fs.push(("whatami".to_owned(), Val::Text(h.whatami.clone())));
    fs.push(("locators".to_owned(), Val::List(ls)));
    Val::Record(fs)
}

// ---------------------------------------------------------------------
// Non-streaming records
// ---------------------------------------------------------------------
/// The record the session-information command yields.
pub open spec fn info_record_matches(
    v: Val,
    zid: Seq<char>,
    routers: Seq<String>,
    peers: Seq<String>,
) -> bool {
    &&& v matches Val::Record(fs)
    &&& fs@.len() == 3
    &&& fs@[0].0@ == "zid"@ && is_text(fs@[0].1, zid)
    &&& fs@[1].0@ == "routers_zid"@
    &&& (fs@[1].1 matches Val::List(rs) && rs@.len() == routers.len() && forall|i: int|
        0 <= i < rs@.len() ==> is_text(#[trigger] rs@[i], routers[i]@))
    &&& fs@[2].0@ == "peers_zid"@
    &&& (fs@[2].1 matches Val::List(ls) && ls@.len() == peers.len() && forall|i: int|
        0 <= i < ls@.len() ==> is_text(#[trigger] ls@[i], peers[i]@))
}

/// Convert a list of identifier strings to a list value of texts.
fn zid_list_value(zids: &Vec<String>) -> (r: Val)
    ensures
        r matches Val::List(ls) && ls@.len() == zids@.len() && forall|i: int|
            0 <= i < ls@.len() ==> is_text(#[trigger] ls@[i], zids@[i]@),
{
    let mut ls: Vec<Val> = Vec::new();
    let mut i: usize = 0;
    while i < zids.len()
        invariant
            i <= zids@.len(),
            ls@.len() == i,
            forall|j: int| 0 <= j < i ==> is_text(#[trigger] ls@[j], zids@[j]@),
        decreases zids@.len() - i,
    {
        ls.push(Val::Text(zids[i].clone()));
        i = i + 1;
    }
    Val::List(ls)
}

/// Build the session-information record from the session's own
/// identifier and the identifiers of the routers and peers it is
/// connected to.
pub fn info_to_record(zid: &String, routers: &Vec<String>, peers: &Vec<String>) -> (r: Val)
    ensures
        info_record_matches(r, zid@, routers@, peers@),
{
    let mut fs: Vec<(String, Val)> = Vec::new();
    fs.push(("zid".to_owned(), Val::Text(zid.clone())));
    fs.push(("routers_zid".to_owned(), zid_list_value(routers)));
    fs.push(("peers_zid".to_owned(), zid_list_value(peers)));
    Val::Record(fs)
}

/// The record a held liveliness token renders as: the key
/// expression it marks alive.
pub open spec fn token_record_matches(v: Val, keyexpr: Seq<char>) -> bool {
    &&& v matches Val::Record(fs)
    &&& fs@.len() == 1
    &&& fs@[0].0@ == "keyexpr"@ && is_text(fs@[0].1, keyexpr)
}

/// Render a held liveliness token as its base record.
pub fn token_record(keyexpr: &String) -> (r: Val)
    ensures
        token_record_matches(r, keyexpr@),
{
    let mut fs: Vec<(String, Val)> = Vec::new();
    fs.push(("keyexpr".to_owned(), Val::Text(keyexpr.clone())));
    Val::Record(fs)
}

/// The record one entry of the session or runtime listing yields.
pub open spec fn listing_record_matches(v: Val, name: Seq<char>, zid: Seq<char>) -> bool {
    &&& v matches Val::Record(fs)
    &&& fs@.len() == 2
    &&& fs@[0].0@ == "name"@ && is_text(fs@[0].1, name)
    &&& fs@[1].0@ == "zid"@ && is_text(fs@[1].1, zid)
}

/// Build one entry of the session or runtime listing.
pub fn listing_record(name: &String, zid: &String) -> (r: Val)
    ensures
        listing_record_matches(r, name@, zid@),
{
    let mut fs: Vec<(String, Val)> = Vec::new();
    fs.push(("name".to_owned(), Val::Text(name.clone())));
    fs.push(("zid".to_owned(), Val::Text(zid.clone())));
    Val::Record(fs)
}

} // verus!
