//! Error taxonomy of the command layer.
//!
//! Option validation failures are detected before any network call is
//! issued and are fatal to the single command invocation that raised
//! them; they carry the source location of the offending parameter.

use vstd::prelude::*;

verus! {

/// Source location of a call parameter, used to attribute a failure to
/// the parameter the caller wrote. The layer never interprets it.
#[derive(Clone, Copy, PartialEq, Eq, Structural, Debug)]
pub struct Loc {
    pub start: u64,
    pub end: u64,
}

impl Loc {
    pub fn unknown() -> (r: Loc)
        ensures
            r == (Loc { start: 0, end: 0 }),
    {
        Loc { start: 0, end: 0 }
    }
}

/// A malformed or out-of-range option value, detected at decode time.
/// Each variant records where the rejected parameter came from; the
/// timestamp variant additionally carries the underlying parse
/// diagnostic.
#[derive(Debug, PartialEq, Eq)]
pub enum OptionError {
    /// The priority string did not parse as an unsigned 8-bit integer.
    PriorityNotANumber(Loc),
    /// The priority parsed but lies outside 0..=7.
    PriorityOutOfRange(Loc),
    /// The congestion-control code was neither 0 (drop) nor 1 (block).
    InvalidCongestion(Loc),
    /// The consolidation string was none of the accepted literals.
    InvalidConsolidation(Loc),
    /// The query-target string was none of the accepted literals.
    InvalidTarget(Loc),
    /// The locality string was none of the accepted literals.
    InvalidLocality(Loc),
    /// The timestamp did not parse; the diagnostic of the underlying
    /// parser is attached.
    InvalidTimestamp(Loc, String),
}

/// The headline a validation failure is reported under.
pub open spec fn option_error_title(e: OptionError) -> Seq<char> {
    match e {
        OptionError::PriorityNotANumber(_) => "Invalid priority"@,
        OptionError::PriorityOutOfRange(_) => "Invalid priority"@,
        OptionError::InvalidCongestion(_) => "Invalid congestion control"@,
        OptionError::InvalidConsolidation(_) => "Invalid consolidation mode"@,
        OptionError::InvalidTarget(_) => "Invalid target"@,
        OptionError::InvalidLocality(_) => "Invalid locality"@,
        OptionError::InvalidTimestamp(_, _) => "Invalid timestamp"@,
    }
}

/// The label a validation failure attaches at the parameter's source
/// location.
pub open spec fn option_error_label(e: OptionError) -> Seq<char> {
    match e {
        OptionError::PriorityNotANumber(_) => "Priority must be a number between 0-7"@,
        OptionError::PriorityOutOfRange(_) => "Priority must be between 0-7"@,
        OptionError::InvalidCongestion(_) => "Must be 0 (drop) or 1 (block)"@,
        OptionError::InvalidConsolidation(_) => "Must be 'auto', 'latest', 'monotonic', or 'none'"@,
        OptionError::InvalidTarget(_) => "Must be 'all', 'all-complete', or 'best-matching'"@,
        OptionError::InvalidLocality(_) => "Must be 'any', 'remote', or 'session-local'"@,
        OptionError::InvalidTimestamp(_, d) => "Failed to parse RFC3339 timestamp: "@ + d@,
    }
}

/// The source location a validation failure points at.
pub open spec fn option_error_loc(e: OptionError) -> Loc {
    match e {
        OptionError::PriorityNotANumber(l) => l,
        OptionError::PriorityOutOfRange(l) => l,
        OptionError::InvalidCongestion(l) => l,
        OptionError::InvalidConsolidation(l) => l,
        OptionError::InvalidTarget(l) => l,
        OptionError::InvalidLocality(l) => l,
        OptionError::InvalidTimestamp(l, _) => l,
    }
}

impl OptionError {
    /// The headline of the failure.
    pub fn title(&self) -> (r: String)
        ensures
            r@ == option_error_title(*self),
    {
        match self {
            OptionError::PriorityNotANumber(_) => "Invalid priority".to_owned(),
            OptionError::PriorityOutOfRange(_) => "Invalid priority".to_owned(),
            OptionError::InvalidCongestion(_) => "Invalid congestion control".to_owned(),
            OptionError::InvalidConsolidation(_) => "Invalid consolidation mode".to_owned(),
            OptionError::InvalidTarget(_) => "Invalid target".to_owned(),
            OptionError::InvalidLocality(_) => "Invalid locality".to_owned(),
            OptionError::InvalidTimestamp(_, _) => "Invalid timestamp".to_owned(),
        }
    }

    /// The label attached at the parameter's source location; for a
    /// timestamp the underlying parse diagnostic follows the frame.
    pub fn label(&self) -> (r: String)
        ensures
            r@ == option_error_label(*self),
    {
        match self {
            OptionError::PriorityNotANumber(_) => "Priority must be a number between 0-7".to_owned(
            ),
            OptionError::PriorityOutOfRange(_) => "Priority must be between 0-7".to_owned(),
            OptionError::InvalidCongestion(_) => "Must be 0 (drop) or 1 (block)".to_owned(),
            OptionError::InvalidConsolidation(
                _,
            ) => "Must be 'auto', 'latest', 'monotonic', or 'none'".to_owned(),
            OptionError::InvalidTarget(_) => "Must be 'all', 'all-complete', or 'best-matching'".to_owned(),
            OptionError::InvalidLocality(_) => "Must be 'any', 'remote', or 'session-local'".to_owned(),
            OptionError::InvalidTimestamp(_, d) => {
                let mut m = "Failed to parse RFC3339 timestamp: ".to_owned();
                m.append(d.as_str());
                m
            },
        }
    }

    /// The source location the failure points at.
    pub fn location(&self) -> (r: Loc)
        ensures
            r == option_error_loc(*self),
    {
        match self {
            OptionError::PriorityNotANumber(l) => *l,
            OptionError::PriorityOutOfRange(l) => *l,
            OptionError::InvalidCongestion(l) => *l,
            OptionError::InvalidConsolidation(l) => *l,
            OptionError::InvalidTarget(l) => *l,
            OptionError::InvalidLocality(l) => *l,
            OptionError::InvalidTimestamp(l, _) => *l,
        }
    }
}

/// A payload value that is neither text nor raw bytes and therefore
/// cannot be sent on the wire.
#[derive(Debug, PartialEq, Eq)]
pub enum ConvError {
    InvalidPayloadType,
}

} // verus!
