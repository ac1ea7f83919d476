//! Per-command resolution: the raw, optionally-present call
//! parameters of each streaming or publication command are decoded
//! into one validated plan before any network operation is issued.
//!
//! Validation fails fast: the first offending option, in the order
//! the command reads them, aborts the whole invocation, and no plan
//! — hence no network call — comes out of it. The reply command's
//! per-query handling is planned here too: handler output values are
//! converted to wire bytes, a failed handler sends exactly one error
//! reply, and per-event failures stay in-band.

use vstd::prelude::*;
use vstd::string::StrSliceExecFns;
use vstd::utf8::encode_utf8;

use crate::errors::{Loc, OptionError};
use crate::options::{
    parse_congestion, parse_consolidation, parse_locality, parse_priority, parse_target,
    parse_timestamp, session_or_default, timeout_nanos, timestamp_diagnostic, timestamp_parses,
    congestion_of,
    consolidation_of, dec_u8_of, locality_of, target_of, CongestionMode, ConsolidationMode,
    Locality, QueryTarget,
};
use crate::value::{bytes_of, is_error, is_nothing, Val};

verus! {

/// Startup configuration of the command layer: whether the
/// internal low-level runtime commands are offered, and whether a
/// session named `default` is opened before the first command runs.
#[derive(Clone, Copy, PartialEq, Eq, Structural, Debug)]
pub struct Config {
    pub internal_options: bool,
    pub no_default_session: bool,
}

// ---------------------------------------------------------------------
// Field-level validity and decoding relations
// ---------------------------------------------------------------------
/// An absent priority option is fine; a present one must denote an
/// unsigned 8-bit integer in 0..=7.
pub open spec fn priority_opt_ok(o: Option<String>) -> bool {
    match o {
        Some(s) => dec_u8_of(s@) matches Some(v) && v <= 7,
        None => true,
    }
}

/// The failure a bad priority option decodes to.
pub open spec fn priority_opt_error(o: Option<String>, loc: Loc) -> OptionError {
    match o {
        Some(s) => if dec_u8_of(s@) is None {
            OptionError::PriorityNotANumber(loc)
        } else {
            OptionError::PriorityOutOfRange(loc)
        },
        None => OptionError::PriorityNotANumber(loc),
    }
}

pub open spec fn priority_opt_matches(o: Option<String>, d: Option<u8>) -> bool {
    match o {
        Some(s) => d == dec_u8_of(s@),
        None => d is None,
    }
}

pub open spec fn congestion_opt_ok(o: Option<i64>) -> bool {
    match o {
        Some(v) => congestion_of(v as int) is Some,
        None => true,
    }
}

pub open spec fn congestion_opt_matches(o: Option<i64>, d: Option<CongestionMode>) -> bool {
    match o {
        Some(v) => d == congestion_of(v as int),
        None => d is None,
    }
}

pub open spec fn consolidation_opt_ok(o: Option<String>) -> bool {
    match o {
        Some(s) => consolidation_of(s@) is Some,
        None => true,
    }
}

pub open spec fn consolidation_opt_matches(o: Option<String>, d: Option<ConsolidationMode>) -> bool {
    match o {
        Some(s) => d == consolidation_of(s@),
        None => d is None,
    }
}

pub open spec fn target_opt_ok(o: Option<String>) -> bool {
    match o {
        Some(s) => target_of(s@) is Some,
        None => true,
    }
}

pub open spec fn target_opt_matches(o: Option<String>, d: Option<QueryTarget>) -> bool {
    match o {
        Some(s) => d == target_of(s@),
        None => d is None,
    }
}

pub open spec fn locality_opt_ok(o: Option<String>) -> bool {
    match o {
        Some(s) => locality_of(s@) is Some,
        None => true,
    }
}

pub open spec fn locality_opt_matches(o: Option<String>, d: Option<Locality>) -> bool {
    match o {
        Some(s) => d == locality_of(s@),
        None => d is None,
    }
}

pub open spec fn timestamp_opt_ok(o: Option<String>) -> bool {
    match o {
        Some(s) => timestamp_parses(s@),
        None => true,
    }
}

/// An attachment option becomes its UTF-8 bytes.
pub open spec fn attachment_opt_matches(o: Option<String>, d: Option<Vec<u8>>) -> bool {
    match o {
        Some(s) => d matches Some(b) && b@ == encode_utf8(s@),
        None => d is None,
    }
}

/// A timeout option becomes an unsigned nanosecond duration.
pub open spec fn timeout_opt_matches(o: Option<i64>, d: Option<u64>) -> bool {
    match o {
        Some(v) => d == Some(v as u64),
        None => d is None,
    }
}

/// The session name a raw option resolves to.
pub open spec fn session_opt_matches(o: Option<String>, d: String) -> bool {
    match o {
        Some(s) => d == s,
        None => d@ == "default"@,
    }
}

// ---------------------------------------------------------------------
// Shared resolution helpers
// ---------------------------------------------------------------------
/// Resolve an optional priority option.
fn resolve_priority_opt(o: &Option<String>, loc: Loc) -> (r: Result<Option<u8>, OptionError>)
    ensures
        r matches Ok(d) ==> priority_opt_ok(*o) && priority_opt_matches(*o, d),
        r matches Err(e) ==> !priority_opt_ok(*o) && e == priority_opt_error(*o, loc),
{
    match o {
        Some(s) => match parse_priority(s.as_str(), loc) {
            Ok(v) => Ok(Some(v)),
            Err(e) => Err(e),
        },
        None => Ok(None),
    }
}

/// Resolve an optional congestion-control option.
fn resolve_congestion_opt(o: &Option<i64>, loc: Loc) -> (r: Result<
    Option<CongestionMode>,
    OptionError,
>)
    ensures
        r matches Ok(d) ==> congestion_opt_ok(*o) && congestion_opt_matches(*o, d),
        r matches Err(e) ==> !congestion_opt_ok(*o) && e == OptionError::InvalidCongestion(loc),
{
    match o {
        Some(v) => match parse_congestion(*v, loc) {
            Ok(m) => Ok(Some(m)),
            Err(e) => Err(e),
        },
        None => Ok(None),
    }
}

/// Resolve an optional locality option.
fn resolve_locality_opt(o: &Option<String>, loc: Loc) -> (r: Result<Option<Locality>, OptionError>)
    ensures
        r matches Ok(d) ==> locality_opt_ok(*o) && locality_opt_matches(*o, d),
        r matches Err(e) ==> !locality_opt_ok(*o) && e == OptionError::InvalidLocality(loc),
{
    match o {
        Some(s) => match parse_locality(s.as_str(), loc) {
            Ok(l) => Ok(Some(l)),
            Err(e) => Err(e),
        },
        None => Ok(None),
    }
}

/// Check an optional timestamp option; a rejection carries the
/// underlying parse diagnostic.
fn check_timestamp_opt(o: &Option<String>, loc: Loc) -> (r: Result<(), OptionError>)
    ensures
        r is Ok <==> timestamp_opt_ok(*o),
        r matches Err(e) ==> (o matches Some(s) && e matches OptionError::InvalidTimestamp(l, d)
            && l == loc && d@ == timestamp_diagnostic(s@)),
{
    match o {
        Some(s) => parse_timestamp(s.as_str(), loc),
        None => Ok(()),
    }
}

/// Turn an optional attachment option into wire bytes.
fn attachment_bytes_opt(o: &Option<String>) -> (r: Option<Vec<u8>>)
    ensures
        attachment_opt_matches(*o, r),
{
    match o {
        Some(s) => Some(s.as_str().as_bytes_vec()),
        None => None,
    }
}

// ---------------------------------------------------------------------
// Publication options (put, delete)
// ---------------------------------------------------------------------
/// The raw publication options both publication commands accept.
#[derive(Debug)]
pub struct PublicationRaw {
    pub priority: Option<String>,
    pub congestion: Option<i64>,
    pub reliable: Option<bool>,
    pub express: Option<bool>,
    pub attachment: Option<String>,
    pub timestamp: Option<String>,
    pub destination: Option<String>,
}

/// The validated publication options.
#[derive(Debug, PartialEq, Eq)]
pub struct PublicationOpts {
    pub priority: Option<u8>,
    pub congestion: Option<CongestionMode>,
    pub reliable: Option<bool>,
    pub express: Option<bool>,
    pub attachment: Option<Vec<u8>>,
    /// The validated timestamp, kept in its textual form.
    pub timestamp: Option<String>,
    pub destination: Option<Locality>,
}

/// Every fallible publication option is well formed.
pub open spec fn publication_ok(raw: PublicationRaw) -> bool {
    &&& priority_opt_ok(raw.priority)
    &&& congestion_opt_ok(raw.congestion)
    &&& timestamp_opt_ok(raw.timestamp)
    &&& locality_opt_ok(raw.destination)
}

/// The validated options decode the raw ones field by field.
pub open spec fn publication_matches(raw: PublicationRaw, o: PublicationOpts) -> bool {
    &&& priority_opt_matches(raw.priority, o.priority)
    &&& congestion_opt_matches(raw.congestion, o.congestion)
    &&& o.reliable == raw.reliable
    &&& o.express == raw.express
    &&& attachment_opt_matches(raw.attachment, o.attachment)
    &&& o.timestamp == raw.timestamp
    &&& locality_opt_matches(raw.destination, o.destination)
}

/// The first offending publication option, in the order the commands
/// read them, decides the failure.
pub open spec fn publication_error_matches(raw: PublicationRaw, loc: Loc, e: OptionError) -> bool {
    if !priority_opt_ok(raw.priority) {
        e == priority_opt_error(raw.priority, loc)
    } else if !congestion_opt_ok(raw.congestion) {
        e == OptionError::InvalidCongestion(loc)
    } else if !timestamp_opt_ok(raw.timestamp) {
        raw.timestamp matches Some(s) && e matches OptionError::InvalidTimestamp(l, d) && l == loc
            && d@ == timestamp_diagnostic(s@)
    } else {
        e == OptionError::InvalidLocality(loc)
    }
}

/// Resolve the publication options shared by the put and delete
/// commands: priority, congestion control, reliability, express,
/// attachment, timestamp and destination. Validation happens before
/// any network call; the first offending option aborts.
pub fn resolve_publication(raw: PublicationRaw, loc: Loc) -> (r: Result<
    PublicationOpts,
    OptionError,
>)
    ensures
        r is Ok <==> publication_ok(raw),
        r matches Ok(o) ==> publication_matches(raw, o),
        r matches Err(e) ==> publication_error_matches(raw, loc, e),
{
    let priority = match resolve_priority_opt(&raw.priority, loc) {
        Ok(d) => d,
        Err(e) => {
            return Err(e);
        },
    };
    let congestion = match resolve_congestion_opt(&raw.congestion, loc) {
        Ok(d) => d,
        Err(e) => {
            return Err(e);
        },
    };
    match check_timestamp_opt(&raw.timestamp, loc) {
        Ok(u) => u,
        Err(e) => {
            return Err(e);
        },
    };
    let destination = match resolve_locality_opt(&raw.destination, loc) {
        Ok(d) => d,
        Err(e) => {
            return Err(e);
        },
    };
    let attachment = attachment_bytes_opt(&raw.attachment);
    Ok(PublicationOpts {
        priority,
        congestion,
        reliable: raw.reliable,
        express: raw.express,
        attachment,
        timestamp: raw.timestamp,
        destination,
    })
}

// ---------------------------------------------------------------------
// Put and delete
// ---------------------------------------------------------------------
/// Raw parameters of the put command.
#[derive(Debug)]
pub struct PutRaw {
    pub session: Option<String>,
    pub keyexpr: String,
    pub payload: String,
    pub encoding: Option<String>,
    pub publication: PublicationRaw,
    pub loc: Loc,
}

/// The validated put invocation, ready for one network call.
#[derive(Debug, PartialEq, Eq)]
pub struct PutPlan {
    pub session: String,
    pub keyexpr: String,
    pub payload: String,
    pub encoding: Option<String>,
    pub opts: PublicationOpts,
}

/// Resolve a put invocation. A plan comes out exactly when every
/// option is well formed; otherwise the first offending option's
/// failure does, and no network call is issued.
pub fn resolve_put(raw: PutRaw) -> (r: Result<PutPlan, OptionError>)
    ensures
        r is Ok <==> publication_ok(raw.publication),
        r matches Ok(p) ==> {
            &&& session_opt_matches(raw.session, p.session)
            &&& p.keyexpr == raw.keyexpr
            &&& p.payload == raw.payload
            &&& p.encoding == raw.encoding
            &&& publication_matches(raw.publication, p.opts)
        },
        r matches Err(e) ==> publication_error_matches(raw.publication, raw.loc, e),
{
    let opts = match resolve_publication(raw.publication, raw.loc) {
        Ok(o) => o,
        Err(e) => {
            return Err(e);
        },
    };
    Ok(PutPlan {
        session: session_or_default(raw.session),
        keyexpr: raw.keyexpr,
        payload: raw.payload,
        encoding: raw.encoding,
        opts,
    })
}

/// Raw parameters of the delete command.
#[derive(Debug)]
pub struct DeleteRaw {
    pub session: Option<String>,
    pub keyexpr: String,
    pub publication: PublicationRaw,
    pub loc: Loc,
}

/// The validated delete invocation.
#[derive(Debug, PartialEq, Eq)]
pub struct DeletePlan {
    pub session: String,
    pub keyexpr: String,
    pub opts: PublicationOpts,
}

/// Resolve a delete invocation; same discipline as the put command,
/// without a payload or an encoding.
pub fn resolve_delete(raw: DeleteRaw) -> (r: Result<DeletePlan, OptionError>)
    ensures
        r is Ok <==> publication_ok(raw.publication),
        r matches Ok(p) ==> {
            &&& session_opt_matches(raw.session, p.session)
            &&& p.keyexpr == raw.keyexpr
            &&& publication_matches(raw.publication, p.opts)
        },
        r matches Err(e) ==> publication_error_matches(raw.publication, raw.loc, e),
{
    let opts = match resolve_publication(raw.publication, raw.loc) {
        Ok(o) => o,
        Err(e) => {
            return Err(e);
        },
    };
    Ok(DeletePlan { session: session_or_default(raw.session), keyexpr: raw.keyexpr, opts })
}

// ---------------------------------------------------------------------
// Subscribe
// ---------------------------------------------------------------------
/// Raw parameters of the subscribe command.
#[derive(Debug)]
pub struct SubscribeRaw {
    pub session: Option<String>,
    pub keyexpr: String,
    pub origin: Option<String>,
    pub loc: Loc,
}

/// The validated subscription: the declared subscriber's callback
/// feeds a bounded channel, and the adapter owns the subscriber
/// handle for as long as the consumer keeps pulling.
#[derive(Debug, PartialEq, Eq)]
pub struct SubscribePlan {
    pub session: String,
    pub keyexpr: String,
    pub origin: Option<Locality>,
}

/// Resolve a subscribe invocation.
pub fn resolve_subscribe(raw: SubscribeRaw) -> (r: Result<SubscribePlan, OptionError>)
    ensures
        r is Ok <==> locality_opt_ok(raw.origin),
        r matches Ok(p) ==> {
            &&& session_opt_matches(raw.session, p.session)
            &&& p.keyexpr == raw.keyexpr
            &&& locality_opt_matches(raw.origin, p.origin)
        },
        r matches Err(e) ==> e == OptionError::InvalidLocality(raw.loc),
{
    let origin = match resolve_locality_opt(&raw.origin, raw.loc) {
        Ok(d) => d,
        Err(e) => {
            return Err(e);
        },
    };
    Ok(SubscribePlan { session: session_or_default(raw.session), keyexpr: raw.keyexpr, origin })
}

// ---------------------------------------------------------------------
// Get
// ---------------------------------------------------------------------
/// Raw parameters of the get command.
#[derive(Debug)]
pub struct GetRaw {
    pub session: Option<String>,
    pub keyexpr: String,
    pub target: Option<String>,
    pub consolidation: Option<String>,
    pub timeout: Option<i64>,
    pub payload: Option<String>,
    pub encoding: Option<String>,
    pub attachment: Option<String>,
    pub destination: Option<String>,
    pub loc: Loc,
}

/// The validated query: once the network library accepts it the
/// operation is fire-and-forget, so the adapter for its replies owns
/// no resource handle.
#[derive(Debug, PartialEq, Eq)]
pub struct GetPlan {
    pub session: String,
    pub keyexpr: String,
    pub target: Option<QueryTarget>,
    pub consolidation: Option<ConsolidationMode>,
    /// Query timeout in nanoseconds.
    pub timeout_ns: Option<u64>,
    pub payload: Option<String>,
    pub encoding: Option<String>,
    pub attachment: Option<Vec<u8>>,
    pub destination: Option<Locality>,
}

/// Every fallible get option is well formed.
pub open spec fn get_ok(raw: GetRaw) -> bool {
    &&& target_opt_ok(raw.target)
    &&& consolidation_opt_ok(raw.consolidation)
    &&& locality_opt_ok(raw.destination)
}

/// The first offending get option, in the order the command reads
/// them, decides the failure.
pub open spec fn get_error_matches(raw: GetRaw, e: OptionError) -> bool {
    if !target_opt_ok(raw.target) {
        e == OptionError::InvalidTarget(raw.loc)
    } else if !consolidation_opt_ok(raw.consolidation) {
        e == OptionError::InvalidConsolidation(raw.loc)
    } else {
        e == OptionError::InvalidLocality(raw.loc)
    }
}

/// Resolve a get invocation: target, consolidation, timeout, payload,
/// encoding, attachment and destination, failing fast on the first
/// offending option.
pub fn resolve_get(raw: GetRaw) -> (r: Result<GetPlan, OptionError>)
    ensures
        r is Ok <==> get_ok(raw),
        r matches Ok(p) ==> {
            &&& session_opt_matches(raw.session, p.session)
            &&& p.keyexpr == raw.keyexpr
            &&& target_opt_matches(raw.target, p.target)
            &&& consolidation_opt_matches(raw.consolidation, p.consolidation)
            &&& timeout_opt_matches(raw.timeout, p.timeout_ns)
            &&& p.payload == raw.payload
            &&& p.encoding == raw.encoding
            &&& attachment_opt_matches(raw.attachment, p.attachment)
            &&& locality_opt_matches(raw.destination, p.destination)
        },
        r matches Err(e) ==> get_error_matches(raw, e),
{
    let target = match &raw.target {
        Some(s) => match parse_target(s.as_str(), raw.loc) {
            Ok(t) => Some(t),
            Err(e) => {
                return Err(e);
            },
        },
        None => None,
    };
    let consolidation = match &raw.consolidation {
        Some(s) => match parse_consolidation(s.as_str(), raw.loc) {
            Ok(c) => Some(c),
            Err(e) => {
                return Err(e);
            },
        },
        None => None,
    };
    let timeout_ns = match raw.timeout {
        Some(v) => Some(timeout_nanos(v)),
        None => None,
    };
    let attachment = attachment_bytes_opt(&raw.attachment);
    let destination = match resolve_locality_opt(&raw.destination, raw.loc) {
        Ok(d) => d,
        Err(e) => {
            return Err(e);
        },
    };
    Ok(GetPlan {
        session: session_or_default(raw.session),
        keyexpr: raw.keyexpr,
        target,
        consolidation,
        timeout_ns,
        payload: raw.payload,
        encoding: raw.encoding,
        attachment,
        destination,
    })
}

// ---------------------------------------------------------------------
// Queryable (the reply command)
// ---------------------------------------------------------------------
/// Raw parameters of the reply command, which declares a
/// query-responder.
#[derive(Debug)]
pub struct QueryableRaw {
    pub session: Option<String>,
    pub keyexpr: String,
    pub origin: Option<String>,
    pub complete: Option<bool>,
    pub loc: Loc,
}

/// The validated query-responder declaration; the adapter owns the
/// responder handle for as long as the consumer keeps pulling.
#[derive(Debug, PartialEq, Eq)]
pub struct QueryablePlan {
    pub session: String,
    pub keyexpr: String,
    pub origin: Option<Locality>,
    pub complete: Option<bool>,
}

/// Resolve a reply (query-responder) invocation.
pub fn resolve_queryable(raw: QueryableRaw) -> (r: Result<QueryablePlan, OptionError>)
    ensures
        r is Ok <==> locality_opt_ok(raw.origin),
        r matches Ok(p) ==> {
            &&& session_opt_matches(raw.session, p.session)
            &&& p.keyexpr == raw.keyexpr
            &&& locality_opt_matches(raw.origin, p.origin)
            &&& p.complete == raw.complete
        },
        r matches Err(e) ==> e == OptionError::InvalidLocality(raw.loc),
{
    let origin = match resolve_locality_opt(&raw.origin, raw.loc) {
        Ok(d) => d,
        Err(e) => {
            return Err(e);
        },
    };
    Ok(QueryablePlan {
        session: session_or_default(raw.session),
        keyexpr: raw.keyexpr,
        origin,
        complete: raw.complete,
    })
}

// ---------------------------------------------------------------------
// Scout and the key-expression-only commands
// ---------------------------------------------------------------------
/// The validated scout invocation: no key expression of its own; the
/// scan reuses the named session's transport configuration, and the
/// adapter owns the scan handle.
#[derive(Debug, PartialEq, Eq)]
pub struct ScoutPlan {
    pub session: String,
}

/// Resolve a scout invocation.
pub fn resolve_scout(session: Option<String>) -> (r: ScoutPlan)
    ensures
        session_opt_matches(session, r.session),
{
    ScoutPlan { session: session_or_default(session) }
}

/// The validated invocation of a command that takes a session and a
/// key expression and nothing else: liveliness declaration and
/// liveliness get.
#[derive(Debug, PartialEq, Eq)]
pub struct KeyedPlan {
    pub session: String,
    pub keyexpr: String,
}

/// Resolve a session-and-key-expression invocation. The liveliness
/// get deliberately exposes neither a destination restriction nor a
/// timeout.
pub fn resolve_keyed(session: Option<String>, keyexpr: String) -> (r: KeyedPlan)
    ensures
        session_opt_matches(session, r.session),
        r.keyexpr == keyexpr,
{
    KeyedPlan { session: session_or_default(session), keyexpr }
}

// ---------------------------------------------------------------------
// Session and runtime opening
// ---------------------------------------------------------------------
/// Where the configuration of a session or runtime being opened comes
/// from.
#[derive(Debug, PartialEq, Eq)]
pub enum ConfigSource {
    /// Load the configuration from this file path.
    FromFile(String),
    /// Parse the configuration from this record's fields.
    FromRecord(Vec<(String, Val)>),
    /// Initialize the session from this named low-level runtime.
    FromRuntime(String),
    /// Use the default configuration.
    Defaulted,
}

/// A malformed way of telling the open commands where their
/// configuration comes from.
#[derive(Debug, PartialEq, Eq)]
pub enum SetupError {
    /// More than one of the file path, the record and the runtime
    /// name was given.
    ConflictingConfig,
    /// The configuration argument was present but not a record.
    ConfigNotARecord,
}

/// Decide where an open command's configuration comes from: exactly
/// one of a file path, a configuration record and a runtime name may
/// be given, and none of them means the default configuration.
pub fn select_config_source(file: Option<String>, cfg: Option<Val>, runtime: Option<String>) -> (r:
    Result<ConfigSource, SetupError>)
    ensures
        match (file, cfg, runtime) {
            (Some(f), None, None) => r == Ok::<ConfigSource, SetupError>(ConfigSource::FromFile(f)),
            (None, Some(c), None) => match c {
                Val::Record(fs) => r == Ok::<ConfigSource, SetupError>(
                    ConfigSource::FromRecord(fs),
                ),
                _ => r == Err::<ConfigSource, SetupError>(SetupError::ConfigNotARecord),
            },
            (None, None, Some(n)) => r == Ok::<ConfigSource, SetupError>(
                ConfigSource::FromRuntime(n),
            ),
            (None, None, None) => r == Ok::<ConfigSource, SetupError>(ConfigSource::Defaulted),
            _ => r == Err::<ConfigSource, SetupError>(SetupError::ConflictingConfig),
        },
{
    match (file, cfg, runtime) {
        (Some(f), None, None) => Ok(ConfigSource::FromFile(f)),
        (None, Some(c), None) => match c {
            Val::Record(fs) => Ok(ConfigSource::FromRecord(fs)),
            _ => Err(SetupError::ConfigNotARecord),
        },
        (None, None, Some(n)) => Ok(ConfigSource::FromRuntime(n)),
        (None, None, None) => Ok(ConfigSource::Defaulted),
        _ => Err(SetupError::ConflictingConfig),
    }
}

// ---------------------------------------------------------------------
// The reply path
// ---------------------------------------------------------------------
/// What the reply command does with one query, given what the
/// caller-supplied handler produced for it.
#[derive(Debug, PartialEq, Eq)]
pub enum ReplyPlan {
    /// Every handler value converted: send these payloads, in order,
    /// as replies on the query, and yield the nothing value. Zero
    /// values mean zero replies and a plain nothing outcome.
    SendValues(Vec<Vec<u8>>),
    /// The handler value at `failed` was neither text nor bytes: send
    /// only the payloads before it, then yield an in-band error value
    /// for that query. The sequence itself goes on.
    Partial { sent: Vec<Vec<u8>>, failed: usize },
    /// The handler failed with this message: send exactly one error
    /// reply carrying it, and no success reply.
    SendError(String),
}

/// Entry `j` of `out` is the wire bytes of handler value `j`.
pub open spec fn converted_at(vals: Seq<Val>, out: Seq<Vec<u8>>, j: int) -> bool {
    bytes_of(vals[j]) is Some && out[j]@ == bytes_of(vals[j])->Some_0
}

/// The first `n` entries of `out` are the wire bytes of the first
/// `n` handler values, each of which is convertible.
pub open spec fn converted_prefix(vals: Seq<Val>, out: Seq<Vec<u8>>, n: int) -> bool {
    forall|j: int| 0 <= j < n ==> #[trigger] converted_at(vals, out, j)
}

/// The plan converts the handler's values as far as they go: all of
/// them when every value is text or bytes, and exactly the prefix
/// before the first value that is neither.
pub open spec fn reply_values_plan_matches(r: ReplyPlan, vals: Seq<Val>) -> bool {
    match r {
        ReplyPlan::SendValues(bs) => {
            &&& bs@.len() == vals.len()
            &&& converted_prefix(vals, bs@, vals.len() as int)
        },
        ReplyPlan::Partial { sent, failed } => {
            &&& failed < vals.len()
            &&& bytes_of(vals[failed as int]) is None
            &&& sent@.len() == failed
            &&& converted_prefix(vals, sent@, failed as int)
        },
        ReplyPlan::SendError(_) => false,
    }
}

/// Plan the replies for one query from the values the handler
/// produced: convert each value to wire bytes, in order, stopping at
/// the first value that is neither text nor bytes.
pub fn plan_reply_values(vals: &Vec<Val>) -> (r: ReplyPlan)
    ensures
        reply_values_plan_matches(r, vals@),
{
    let mut out: Vec<Vec<u8>> = Vec::new();
    let mut i: usize = 0;
    while i < vals.len()
        invariant
            i <= vals@.len(),
            out@.len() == i,
            converted_prefix(vals@, out@, i as int),
        decreases vals@.len() - i,
    {
        let ghost pre = out@;
        match crate::value::value_to_bytes(&vals[i]) {
            Ok(b) => {
                proof {
                    assert(bytes_of(vals@[i as int]) is Some);
                    assert(b@ == bytes_of(vals@[i as int])->Some_0);
                }
                out.push(b);
                proof {
                    assert(converted_at(vals@, out@, i as int));
                    assert forall|j: int| 0 <= j < i + 1 implies #[trigger] converted_at(
                        vals@,
                        out@,
                        j,
                    ) by {
                        if j < i {
                            assert(converted_at(vals@, pre, j));
                            assert(out@[j] == pre[j]);
                        }
                    }
                }
            },
            Err(_) => {
                return ReplyPlan::Partial { sent: out, failed: i };
            },
        }
        i = i + 1;
    }
    ReplyPlan::SendValues(out)
}

/// Plan one query's handling from the handler's outcome: converted
/// payloads for a succeeding handler, exactly one error reply — and
/// no success reply — for a failing one.
pub fn plan_reply(handler: Result<Vec<Val>, String>) -> (r: ReplyPlan)
    ensures
        handler matches Ok(vals) ==> reply_values_plan_matches(r, vals@),
        handler matches Err(m) ==> r == ReplyPlan::SendError(m),
{
    match handler {
        Ok(vals) => plan_reply_values(&vals),
        Err(m) => ReplyPlan::SendError(m),
    }
}

/// A query answered with zero values: the plan sends zero replies —
/// in particular, no error reply — so the query's output under
/// [`reply_outcome_value`] is the nothing value.
pub proof fn lemma_empty_handler_sends_nothing(r: ReplyPlan)
    requires
        reply_values_plan_matches(r, Seq::<Val>::empty()),
    ensures
        r matches ReplyPlan::SendValues(bs) && bs@.len() == 0,
{
}

/// The value the reply command yields for one handled query: a send
/// failure reported by the network library surfaces as an in-band
/// error value at this position; a conversion failure does too; and
/// a fully handled query — zero or more replies sent, or one error
/// reply sent — yields the nothing value. The sequence itself is
/// never terminated by any of these.
pub fn reply_outcome_value(plan: &ReplyPlan, send_failure: Option<String>) -> (v: Val)
    ensures
        match send_failure {
            Some(m) => is_error(v, m@),
            None => match plan {
                ReplyPlan::Partial { .. } => is_error(v, "Value must be a String or Binary"@),
                _ => is_nothing(v),
            },
        },
{
    match send_failure {
        Some(m) => Val::Error(m),
        None => match plan {
            ReplyPlan::Partial { .. } => Val::Error("Value must be a String or Binary".to_owned()),
            _ => Val::Nothing,
        },
    }
}

} // verus!
