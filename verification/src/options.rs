//! Typed-option decoding: raw, optionally-present call parameters are
//! turned into validated protocol option values before any network
//! operation is issued.
//!
//! Each parser mirrors one option of the validation table: priority
//! (unsigned 8-bit, 0..=7), congestion control (0 drop, 1 block),
//! consolidation, query target and locality (fixed literal sets,
//! case-sensitive), timestamps (RFC 3339 with identifier suffix) and
//! timeouts (native nanosecond durations).

use vstd::prelude::*;
use vstd::string::{StrSliceExecFns, StringSliceAdditionalSpecFns};
use vstd::utf8::encode_utf8_decode_utf8;

use crate::errors::{Loc, OptionError};

verus! {

// ---------------------------------------------------------------------
// String equality
// ---------------------------------------------------------------------
/// Compare two string slices by contents.
pub fn str_eq(a: &str, b: &str) -> (r: bool)
    ensures
        r == (a@ == b@),
{
    let ab = a.as_bytes();
    let bb = b.as_bytes();
    if ab.len() != bb.len() {
        return false;
    }
    let n = ab.len();
    let mut i: usize = 0;
    while i < n
        invariant
            ab@ == a.spec_bytes(),
            bb@ == b.spec_bytes(),
            n == ab@.len() == bb@.len(),
            i <= n,
            forall|j: int| 0 <= j < i ==> ab@[j] == bb@[j],
        decreases n - i,
    {
        if ab[i] != bb[i] {
            return false;
        }
        i = i + 1;
    }
    proof {
        assert(ab@ =~= bb@);
        encode_utf8_decode_utf8(a@);
        encode_utf8_decode_utf8(b@);
    }
    true
}

// ---------------------------------------------------------------------
// Decimal parsing
// ---------------------------------------------------------------------
pub open spec fn is_dec_digit(c: char) -> bool {
    48 <= c as u32 <= 57
}

pub open spec fn digit_val(c: char) -> int {
    c as u32 - 48
}

pub open spec fn all_dec_digits(s: Seq<char>) -> bool {
    forall|i: int| 0 <= i < s.len() ==> is_dec_digit(#[trigger] s[i])
}

pub open spec fn dec_digits_val(s: Seq<char>) -> int
    decreases s.len(),
{
    if s.len() == 0 {
        0
    } else {
        dec_digits_val(s.drop_last()) * 10 + digit_val(s.last())
    }
}

/// The digits of a decimal string once an optional leading `+` is
/// stripped.
pub open spec fn dec_u8_digits(s: Seq<char>) -> Seq<char> {
    if s.len() > 0 && s[0] == '+' {
        s.drop_first()
    } else {
        s
    }
}

/// The unsigned 8-bit integer a string denotes in decimal notation,
/// with an optional leading `+`, or nothing when it denotes none.
pub open spec fn dec_u8_of(s: Seq<char>) -> Option<u8> {
    let t = dec_u8_digits(s);
    if t.len() > 0 && all_dec_digits(t) && dec_digits_val(t) <= 255 {
        Some(dec_digits_val(t) as u8)
    } else {
        None
    }
}

proof fn lemma_dec_digits_val_push(s: Seq<char>, c: char)
    ensures
        dec_digits_val(s.push(c)) == dec_digits_val(s) * 10 + digit_val(c),
{
    assert(s.push(c).drop_last() =~= s);
    assert(s.push(c).last() == c);
}

proof fn lemma_dec_digits_val_nonneg(s: Seq<char>)
    requires
        all_dec_digits(s),
    ensures
        dec_digits_val(s) >= 0,
    decreases s.len(),
{
    if s.len() > 0 {
        assert(all_dec_digits(s.drop_last())) by {
            assert(forall|i: int|
                0 <= i < s.len() - 1 ==> is_dec_digit(#[trigger] s.drop_last()[i]) == is_dec_digit(
                    s[i],
                ));
        }
        lemma_dec_digits_val_nonneg(s.drop_last());
    }
}

/// Parse a string as an unsigned 8-bit decimal integer, exactly as
/// [`dec_u8_of`] describes.
pub fn parse_u8_dec(s: &str) -> (r: Option<u8>)
    ensures
        r == dec_u8_of(s@),
{
    let n = s.unicode_len();
    if n == 0 {
        return None;
    }
    let first = s.get_char(0);
    let start: usize = if first as u32 == 43 { 1 } else { 0 };
    let ghost t = dec_u8_digits(s@);
    proof {
        assert(t =~= s@.subrange(start as int, n as int));
    }
    if n == start {
        return None;
    }
    let mut acc: u32 = 0;
    let mut over = false;
    let mut i: usize = start;
    while i < n
        invariant
            start <= i <= n,
            n == s@.len(),
            start == 0 || start == 1,
            t == dec_u8_digits(s@),
            t =~= s@.subrange(start as int, n as int),
            all_dec_digits(s@.subrange(start as int, i as int)),
            over == (dec_digits_val(s@.subrange(start as int, i as int)) > 255),
            !over ==> acc == dec_digits_val(s@.subrange(start as int, i as int)) && acc <= 255,
        decreases n - i,
    {
        let ghost p = s@.subrange(start as int, i as int);
        let c = s.get_char(i);
        let u = c as u32;
        if u < 48 || u > 57 {
            proof {
                assert(t[i - start] == c);
                assert(!is_dec_digit(c));
            }
            return None;
        }
        let d = u - 48;
        proof {
            let p2 = s@.subrange(start as int, i + 1);
            assert(p2 =~= p.push(c));
            lemma_dec_digits_val_push(p, c);
            if over {
                lemma_dec_digits_val_nonneg(p);
            }
        }
        if !over {
            acc = acc * 10 + d;
            if acc > 255 {
                over = true;
            }
        }
        i = i + 1;
    }
    proof {
        assert(s@.subrange(start as int, n as int) =~= t);
    }
    if over {
        None
    } else {
        Some(acc as u8)
    }
}

// ---------------------------------------------------------------------
// Priority
// ---------------------------------------------------------------------
/// Parse a priority option: an unsigned 8-bit integer that must lie in
/// 0..=7. Unparsable strings and out-of-range values fail with
/// distinct diagnoses.
pub fn parse_priority(s: &str, loc: Loc) -> (r: Result<u8, OptionError>)
    ensures
        match dec_u8_of(s@) {
            Some(v) => if v <= 7 {
                r == Ok::<u8, OptionError>(v)
            } else {
                r == Err::<u8, OptionError>(OptionError::PriorityOutOfRange(loc))
            },
            None => r == Err::<u8, OptionError>(OptionError::PriorityNotANumber(loc)),
        },
{
    match parse_u8_dec(s) {
        Some(v) => if v <= 7 {
            Ok(v)
        } else {
            Err(OptionError::PriorityOutOfRange(loc))
        },
        None => Err(OptionError::PriorityNotANumber(loc)),
    }
}

// ---------------------------------------------------------------------
// Congestion control
// ---------------------------------------------------------------------
/// Behaviour under send backpressure.
#[derive(Clone, Copy, PartialEq, Eq, Structural, Debug)]
pub enum CongestionMode {
    Drop,
    Block,
}

pub open spec fn congestion_of(v: int) -> Option<CongestionMode> {
    if v == 0 {
        Some(CongestionMode::Drop)
    } else if v == 1 {
        Some(CongestionMode::Block)
    } else {
        None
    }
}

/// Parse a congestion-control option: only the codes 0 (drop) and
/// 1 (block) are accepted.
pub fn parse_congestion(v: i64, loc: Loc) -> (r: Result<CongestionMode, OptionError>)
    ensures
        match congestion_of(v as int) {
            Some(m) => r == Ok::<CongestionMode, OptionError>(m),
            None => r == Err::<CongestionMode, OptionError>(OptionError::InvalidCongestion(loc)),
        },
{
    if v == 0 {
        Ok(CongestionMode::Drop)
    } else if v == 1 {
        Ok(CongestionMode::Block)
    } else {
        Err(OptionError::InvalidCongestion(loc))
    }
}

// ---------------------------------------------------------------------
// Consolidation
// ---------------------------------------------------------------------
/// Policy for merging multiple replies to one query.
#[derive(Clone, Copy, PartialEq, Eq, Structural, Debug)]
pub enum ConsolidationMode {
    Auto,
    Latest,
    Monotonic,
    NoConsolidation,
}

pub open spec fn consolidation_of(s: Seq<char>) -> Option<ConsolidationMode> {
    if s == "auto"@ {
        Some(ConsolidationMode::Auto)
    } else if s == "latest"@ {
        Some(ConsolidationMode::Latest)
    } else if s == "monotonic"@ {
        Some(ConsolidationMode::Monotonic)
    } else if s == "none"@ {
        Some(ConsolidationMode::NoConsolidation)
    } else {
        None
    }
}

/// Parse a consolidation option: exactly the literals `auto`,
/// `latest`, `monotonic` and `none` are accepted, case-sensitively.
pub fn parse_consolidation(s: &str, loc: Loc) -> (r: Result<ConsolidationMode, OptionError>)
    ensures
        match consolidation_of(s@) {
            Some(m) => r == Ok::<ConsolidationMode, OptionError>(m),
            None => r == Err::<ConsolidationMode, OptionError>(
                OptionError::InvalidConsolidation(loc),
            ),
        },
{
    if str_eq(s, "auto") {
        Ok(ConsolidationMode::Auto)
    } else if str_eq(s, "latest") {
        Ok(ConsolidationMode::Latest)
    } else if str_eq(s, "monotonic") {
        Ok(ConsolidationMode::Monotonic)
    } else if str_eq(s, "none") {
        Ok(ConsolidationMode::NoConsolidation)
    } else {
        Err(OptionError::InvalidConsolidation(loc))
    }
}

// ---------------------------------------------------------------------
// Query target
// ---------------------------------------------------------------------
/// Which responders a query is addressed to.
#[derive(Clone, Copy, PartialEq, Eq, Structural, Debug)]
pub enum QueryTarget {
    All,
    AllComplete,
    BestMatching,
}

pub open spec fn target_of(s: Seq<char>) -> Option<QueryTarget> {
    if s == "all"@ {
        Some(QueryTarget::All)
    } else if s == "all-complete"@ {
        Some(QueryTarget::AllComplete)
    } else if s == "best-matching"@ {
        Some(QueryTarget::BestMatching)
    } else {
        None
    }
}

/// Parse a query-target option: exactly the literals `all`,
/// `all-complete` and `best-matching` are accepted.
pub fn parse_target(s: &str, loc: Loc) -> (r: Result<QueryTarget, OptionError>)
    ensures
        match target_of(s@) {
            Some(m) => r == Ok::<QueryTarget, OptionError>(m),
            None => r == Err::<QueryTarget, OptionError>(OptionError::InvalidTarget(loc)),
        },
{
    if str_eq(s, "all") {
        Ok(QueryTarget::All)
    } else if str_eq(s, "all-complete") {
        Ok(QueryTarget::AllComplete)
    } else if str_eq(s, "best-matching") {
        Ok(QueryTarget::BestMatching)
    } else {
        Err(OptionError::InvalidTarget(loc))
    }
}

// ---------------------------------------------------------------------
// Locality
// ---------------------------------------------------------------------
/// Scope restriction on which peers may originate or receive an
/// operation.
#[derive(Clone, Copy, PartialEq, Eq, Structural, Debug)]
pub enum Locality {
    Any,
    Remote,
    SessionLocal,
}

pub open spec fn locality_of(s: Seq<char>) -> Option<Locality> {
    if s == "any"@ {
        Some(Locality::Any)
    } else if s == "remote"@ {
        Some(Locality::Remote)
    } else if s == "session-local"@ {
        Some(Locality::SessionLocal)
    } else {
        None
    }
}

/// Parse a locality option: exactly the literals `any`, `remote` and
/// `session-local` are accepted.
pub fn parse_locality(s: &str, loc: Loc) -> (r: Result<Locality, OptionError>)
    ensures
        match locality_of(s@) {
            Some(l) => r == Ok::<Locality, OptionError>(l),
            None => r == Err::<Locality, OptionError>(OptionError::InvalidLocality(loc)),
        },
{
    if str_eq(s, "any") {
        Ok(Locality::Any)
    } else if str_eq(s, "remote") {
        Ok(Locality::Remote)
    } else if str_eq(s, "session-local") {
        Ok(Locality::SessionLocal)
    } else {
        Err(OptionError::InvalidLocality(loc))
    }
}

// ---------------------------------------------------------------------
// Timestamps
// ---------------------------------------------------------------------
/// The hybrid logical clock stores seconds since the epoch in 32
/// bits; instants past that range cannot be represented and are
/// refused at validation time.
pub const MAX_CLOCK_SECONDS: u64 = 0xFFFF_FFFF;

/// Whether a string is an RFC 3339 time the date parser accepts; it
/// depends on the string alone.
pub uninterp spec fn rfc3339_ok(s: Seq<char>) -> bool;

/// The seconds since the epoch an accepted RFC 3339 time denotes; it
/// depends on the string alone.
pub uninterp spec fn rfc3339_secs(s: Seq<char>) -> u64;

/// The rendering of the date parser's rejection of a string; it
/// depends on the string alone.
pub uninterp spec fn rfc3339_diagnostic(s: Seq<char>) -> Seq<char>;

/// Relies on `humantime::parse_rfc3339`: acceptance and the parsed
/// instant depend on the string alone (on targets whose time
/// representation is 64 bits wide), every index into the input is
/// length-guarded, and the accepted years are capped at 9999, so the
/// call returns on every input. The rendered error reports why the
/// string was rejected.
#[verifier::external_body]
fn rfc3339_seconds(s: &str) -> (r: Result<u64, String>)
    ensures
        r matches Ok(secs) ==> rfc3339_ok(s@) && secs == rfc3339_secs(s@),
        r matches Err(d) ==> !rfc3339_ok(s@) && d@ == rfc3339_diagnostic(s@),
{
    match humantime::parse_rfc3339(s) {
        Ok(t) => match t.duration_since(std::time::UNIX_EPOCH) {
            Ok(d) => Ok(d.as_secs()),
            Err(_) => Err("timestamp precedes the epoch".to_string()),
        },
        Err(e) => Err(format!("{e}")),
    }
}

/// Whether a string names a clock identifier: nonzero hexadecimal
/// without a leading zero; it depends on the string alone.
pub uninterp spec fn id_ok(s: Seq<char>) -> bool;

/// The rendering of the identifier parser's rejection of a string; it
/// depends on the string alone.
pub uninterp spec fn id_diagnostic(s: Seq<char>) -> Seq<char>;

/// Relies on `uhlc::ID::from_str`: it accepts exactly the nonempty
/// hexadecimal renderings, without a leading zero, of nonzero 128-bit
/// identifiers, returns on every input, and its rendered error
/// reports why the string was rejected.
#[verifier::external_body]
fn id_check(s: &str) -> (r: Result<(), String>)
    ensures
        r is Ok ==> id_ok(s@),
        r matches Err(d) ==> !id_ok(s@) && d@ == id_diagnostic(s@),
{
    match <uhlc::ID as core::str::FromStr>::from_str(s) {
        Ok(_) => Ok(()),
        Err(e) => Err(format!("{e}")),
    }
}

/// The position of the first `/` in a timestamp string, separating
/// the RFC 3339 time from the clock identifier.
pub open spec fn slash_pos(s: Seq<char>) -> Option<int>
    decreases s.len(),
{
    if s.len() == 0 {
        None
    } else if s[0] == '/' {
        Some(0)
    } else {
        match slash_pos(s.drop_first()) {
            Some(i) => Some(i + 1),
            None => None,
        }
    }
}

proof fn lemma_slash_pos_present(s: Seq<char>, i: int)
    requires
        0 <= i < s.len(),
        s[i] == '/',
        forall|j: int| 0 <= j < i ==> s[j] != '/',
    ensures
        slash_pos(s) == Some(i),
    decreases i,
{
    if i > 0 {
        let rest = s.drop_first();
        assert(rest[i - 1] == '/');
        assert(forall|j: int| 0 <= j < i - 1 ==> rest[j] != '/');
        lemma_slash_pos_present(rest, i - 1);
    }
}

proof fn lemma_slash_pos_absent(s: Seq<char>)
    requires
        forall|j: int| 0 <= j < s.len() ==> s[j] != '/',
    ensures
        slash_pos(s) is None,
    decreases s.len(),
{
    if s.len() > 0 {
        let rest = s.drop_first();
        assert(forall|j: int| 0 <= j < rest.len() ==> rest[j] != '/');
        lemma_slash_pos_absent(rest);
    }
}

/// The RFC 3339 time part of a timestamp string: what stands before
/// the first `/`.
pub open spec fn time_part(s: Seq<char>, i: int) -> Seq<char> {
    s.subrange(0, i)
}

/// The identifier part of a timestamp string: what stands after the
/// first `/`.
pub open spec fn id_part(s: Seq<char>, i: int) -> Seq<char> {
    s.subrange(i + 1, s.len() as int)
}

/// Whether a string is a valid timestamp option: an RFC 3339 time
/// whose instant fits the clock's 32-bit seconds, then `/`, then a
/// clock identifier.
pub open spec fn timestamp_parses(s: Seq<char>) -> bool {
    match slash_pos(s) {
        Some(i) => {
            &&& rfc3339_ok(time_part(s, i))
            &&& rfc3339_secs(time_part(s, i)) <= MAX_CLOCK_SECONDS
            &&& id_ok(id_part(s, i))
        },
        None => false,
    }
}

/// The diagnostic attached when a timestamp option is rejected: the
/// date parser's or the identifier parser's own rendering, or the
/// layer's description of a missing separator or an instant past the
/// clock's era.
pub open spec fn timestamp_diagnostic(s: Seq<char>) -> Seq<char>
    recommends
        !timestamp_parses(s),
{
    match slash_pos(s) {
        None => "missing '/' separator between the time and the identifier"@,
        Some(i) => if !rfc3339_ok(time_part(s, i)) {
            rfc3339_diagnostic(time_part(s, i))
        } else if rfc3339_secs(time_part(s, i)) > MAX_CLOCK_SECONDS {
            "seconds since the epoch exceed the clock's 32-bit range"@
        } else {
            id_diagnostic(id_part(s, i))
        },
    }
}

/// Where the first `/` of a timestamp string stands, if anywhere.
fn find_slash(s: &str) -> (r: Option<usize>)
    ensures
        match r {
            Some(i) => i < s@.len() && slash_pos(s@) == Some(i as int),
            None => slash_pos(s@) is None,
        },
{
    let n = s.unicode_len();
    let mut i: usize = 0;
    while i < n
        invariant
            i <= n,
            n == s@.len(),
            forall|j: int| 0 <= j < i ==> s@[j] != '/',
        decreases n - i,
    {
        let c = s.get_char(i);
        if c as u32 == 47 {
            proof {
                lemma_slash_pos_present(s@, i as int);
            }
            return Some(i);
        }
        i = i + 1;
    }
    proof {
        lemma_slash_pos_absent(s@);
    }
    None
}

/// Validate a timestamp option: RFC 3339 time, `/`, clock identifier.
/// On failure the underlying parse diagnostic is attached to the
/// error. Instants past the clock's 32-bit seconds are refused here,
/// before any value reaches the clock's arithmetic.
pub fn parse_timestamp(s: &str, loc: Loc) -> (r: Result<(), OptionError>)
    ensures
        r is Ok <==> timestamp_parses(s@),
        r matches Err(e) ==> (e matches OptionError::InvalidTimestamp(l, d) && l == loc && d@
            == timestamp_diagnostic(s@)),
{
    let i = match find_slash(s) {
        Some(i) => i,
        None => {
            return Err(
                OptionError::InvalidTimestamp(
                    loc,
                    "missing '/' separator between the time and the identifier".to_owned(),
                ),
            );
        },
    };
    let time = s.substring_char(0, i);
    let secs = match rfc3339_seconds(time) {
        Ok(secs) => secs,
        Err(d) => {
            return Err(OptionError::InvalidTimestamp(loc, d));
        },
    };
    if secs > MAX_CLOCK_SECONDS {
        return Err(
            OptionError::InvalidTimestamp(
                loc,
                "seconds since the epoch exceed the clock's 32-bit range".to_owned(),
            ),
        );
    }
    let n = s.unicode_len();
    let id = s.substring_char(i + 1, n);
    match id_check(id) {
        Ok(u) => Ok(u),
        Err(d) => Err(OptionError::InvalidTimestamp(loc, d)),
    }
}

// ---------------------------------------------------------------------
// Timeouts and defaults
// ---------------------------------------------------------------------
/// Convert the call's native signed nanosecond duration into the
/// unsigned nanosecond duration handed to the network library,
/// two's-complement, as the embedding engine does.
pub fn timeout_nanos(v: i64) -> (r: u64)
    ensures
        r == v as u64,
{
    #[verifier::truncate]
    (v as u64)
}

/// The session an invocation addresses: the given name, or the
/// literal `default` when absent.
pub fn session_or_default(o: Option<String>) -> (r: String)
    ensures
        match o {
            Some(s) => r == s,
            None => r@ == "default"@,
        },
{
    match o {
        Some(s) => s,
        None => "default".to_owned(),
    }
}

} // verus!
