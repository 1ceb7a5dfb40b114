//! Log record encoding for the host's text logging sink.
//!
//! A log record is a payload holding the level's numeric code followed by a
//! length-prefixed UTF-8 text blob.  Handing the record to the host is I/O
//! and stays outside this crate.

use vstd::prelude::*;
use vstd::string::StringSliceAdditionalSpecFns;
use crate::codec::{KegsPayload, i64_le};

verus! {

/// Severity of a log line, in the host's fixed vocabulary.
#[derive(Clone, Copy, PartialEq, Eq, Structural)]
pub enum LogLevel {
    Trace,
    Debug,
    Info,
    Warn,
    Error,
    Critical,
}

/// The numeric code of a log level on the wire.
pub open spec fn level_code(level: LogLevel) -> i64 {
    match level {
        LogLevel::Trace => 0i64,
        LogLevel::Debug => 10i64,
        LogLevel::Info => 20i64,
        LogLevel::Warn => 30i64,
        LogLevel::Error => 40i64,
        LogLevel::Critical => 50i64,
    }
}

impl LogLevel {
    /// The numeric code of this level on the wire.
    pub fn code(&self) -> (r: i64)
        ensures
            r == level_code(*self),
    {
        match self {
            LogLevel::Trace => 0,
            LogLevel::Debug => 10,
            LogLevel::Info => 20,
            LogLevel::Warn => 30,
            LogLevel::Error => 40,
            LogLevel::Critical => 50,
        }
    }
}

/// Encodes one log record: the level's code, then the text's bytes behind a
/// length prefix.
pub fn encode_log(level: LogLevel, text: &str) -> (r: Vec<u8>)
    requires
        text.spec_bytes().len() <= i64::MAX,
    ensures
        r@ == i64_le(level_code(level)) + i64_le(text.spec_bytes().len() as i64)
            + text.spec_bytes(),
{
    let mut p = KegsPayload::new();
    p.write_i64(level.code());
    p.write_bytes(text.as_bytes());
    p.into_bytes()
}

} // verus!
