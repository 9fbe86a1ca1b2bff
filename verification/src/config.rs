//! Run configuration: numbering modes for the numbering tool, prefix bounds
//! for the prefix tool, and the rules that make them from raw option values.

use vstd::prelude::*;

verus! {

/// How the numbering tool labels lines: not at all, every line, or only
/// lines whose content is non-empty.
#[derive(Clone, Copy, Debug, PartialEq, Eq, Structural)]
pub enum NumberingMode {
    Plain,
    AllLines,
    NonblankLines,
}

/// How the prefix tool bounds a source: by a number of lines or by a number
/// of bytes.
#[derive(Clone, Copy, Debug, PartialEq, Eq, Structural)]
pub enum PrefixBound {
    Lines(u64),
    Bytes(u64),
}

/// A configuration that could not be formed: two mutually exclusive options
/// were both supplied, or an explicit bound was out of range.
#[derive(Clone, Copy, Debug, PartialEq, Eq, Structural)]
pub enum ConfigError {
    ConflictingModes,
    ConflictingBounds,
    ZeroBound,
}

/// The line bound used when neither a line bound nor a byte bound is given.
pub const DEFAULT_LINE_BOUND: u64 = 10;

impl PrefixBound {
    /// An explicit bound must ask for at least one line or one byte.
    pub open spec fn wf(self) -> bool {
        match self {
            PrefixBound::Lines(n) => n >= 1,
            PrefixBound::Bytes(n) => n >= 1,
        }
    }
}

/// Whether a source token names standard input rather than a file path:
/// only the literal dash does.
pub fn is_stdin_token(token: &String) -> (r: bool)
    ensures
        r == (token@ == "-"@),
{
    let dash = String::from_str("-");
    token.eq(&dash)
}

/// Chooses the numbering mode from the two flags. Supplying both flags is a
/// configuration error; otherwise exactly one mode fits.
pub fn select_numbering(number_all: bool, number_nonblank: bool) -> (r: Result<
    NumberingMode,
    ConfigError,
>)
    ensures
        r == (if number_all && number_nonblank {
            Result::<NumberingMode, ConfigError>::Err(ConfigError::ConflictingModes)
        } else if number_all {
            Result::<NumberingMode, ConfigError>::Ok(NumberingMode::AllLines)
        } else if number_nonblank {
            Result::<NumberingMode, ConfigError>::Ok(NumberingMode::NonblankLines)
        } else {
            Result::<NumberingMode, ConfigError>::Ok(NumberingMode::Plain)
        }),
{
    if number_all && number_nonblank {
        Err(ConfigError::ConflictingModes)
    } else if number_all {
        Ok(NumberingMode::AllLines)
    } else if number_nonblank {
        Ok(NumberingMode::NonblankLines)
    } else {
        Ok(NumberingMode::Plain)
    }
}

/// Chooses the prefix bound from the two options. Supplying both is a
/// configuration error, an explicit zero is out of range, and with neither
/// given the default line bound applies.
pub fn select_bound(lines: Option<u64>, bytes: Option<u64>) -> (r: Result<
    PrefixBound,
    ConfigError,
>)
    ensures
        r == (match (lines, bytes) {
            (Some(_), Some(_)) => Result::<PrefixBound, ConfigError>::Err(
                ConfigError::ConflictingBounds,
            ),
            (None, Some(b)) => if b >= 1 {
                Result::<PrefixBound, ConfigError>::Ok(PrefixBound::Bytes(b))
            } else {
                Result::<PrefixBound, ConfigError>::Err(ConfigError::ZeroBound)
            },
            (Some(l), None) => if l >= 1 {
                Result::<PrefixBound, ConfigError>::Ok(PrefixBound::Lines(l))
            } else {
                Result::<PrefixBound, ConfigError>::Err(ConfigError::ZeroBound)
            },
            (None, None) => Result::<PrefixBound, ConfigError>::Ok(
                PrefixBound::Lines(DEFAULT_LINE_BOUND),
            ),
        }),
        r matches Ok(b) ==> b.wf(),
{
    match (lines, bytes) {
        (Some(_), Some(_)) => Err(ConfigError::ConflictingBounds),
        (None, Some(b)) => if b >= 1 {
            Ok(PrefixBound::Bytes(b))
        } else {
            Err(ConfigError::ZeroBound)
        },
        (Some(l), None) => if l >= 1 {
            Ok(PrefixBound::Lines(l))
        } else {
            Err(ConfigError::ZeroBound)
        },
        (None, None) => Ok(PrefixBound::Lines(DEFAULT_LINE_BOUND)),
    }
}

} // verus!
