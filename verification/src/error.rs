//! Error values reported by the library.

use vstd::prelude::*;
use vstd::string::StringExecFns;

use crate::text::{append_int, int_text, with_int};

verus! {

/// Every failure the library reports.
///
/// Timeouts are expressed in nanoseconds so that the type holds plain values only.
#[derive(Debug)]
pub enum Error {
    /// The NDI runtime could not be started.
    InitializationFailed(String),
    /// The SDK handed back a null pointer.
    NullPointer(String),
    /// Text coming from the SDK is not valid UTF-8.
    InvalidUtf8(String),
    /// A string meant for the SDK holds a NUL byte; the payload is its byte offset.
    InvalidCString(usize),
    /// A capture failed.
    CaptureFailed(String),
    /// Frame data or a frame description is invalid.
    InvalidFrame(String),
    /// A PTZ command was refused.
    PtzCommandFailed(String),
    /// A configuration value is invalid.
    InvalidConfiguration(String),
    /// An operation timed out.
    Timeout(String),
    /// Frame capture gave up after `attempts` attempts and `elapsed_nanos` nanoseconds.
    FrameTimeout { attempts: usize, elapsed_nanos: u128 },
    /// A source went away.
    SourceUnavailable { source_name: String },
    /// A receiver lost its source.
    Disconnected { reason: String },
    /// Discovery found no source matching `criteria`.
    NoSourcesFound { criteria: String },
    /// A blocking task could not be spawned.
    SpawnFailed(String),
}

/// Builds an [`Error::InvalidFrame`] with the given message.
pub fn invalid_frame(msg: &str) -> (e: Error)
    ensures
        e is InvalidFrame,
{
    Error::InvalidFrame(msg.to_string())
}

/// An invalid-frame error whose message is `text` and the decimal `v`.
pub(crate) fn frame_error(text: &str, v: i128) -> (r: Error)
    requires
        v > i128::MIN,
    ensures
        r matches Error::InvalidFrame(m) && m@ == text@ + int_text(v as int),
{
    Error::InvalidFrame(with_int(text, v))
}

/// An invalid-frame error whose message is `a`, the decimal `x` and `b`.
pub(crate) fn frame_error_in(a: &str, x: i128, b: &str) -> (r: Error)
    requires
        x > i128::MIN,
    ensures
        r matches Error::InvalidFrame(m) && m@ == a@ + int_text(x as int) + b@,
{
    let mut m = with_int(a, x);
    m.append(b);
    Error::InvalidFrame(m)
}

/// An invalid-frame error whose message is `a`, the decimal `x`, `b`, the decimal
/// `y` and `c`.
pub(crate) fn frame_error2(a: &str, x: i128, b: &str, y: i128, c: &str) -> (r: Error)
    requires
        x > i128::MIN,
        y > i128::MIN,
    ensures
        r matches Error::InvalidFrame(m) && m@ == a@ + int_text(x as int) + b@ + int_text(y as int)
            + c@,
{
    let mut m = with_int(a, x);
    m.append(b);
    append_int(&mut m, y);
    m.append(c);
    Error::InvalidFrame(m)
}

/// Builds an [`Error::InvalidConfiguration`] with the given message.
pub fn invalid_configuration(msg: &str) -> (e: Error)
    ensures
        e is InvalidConfiguration,
{
    Error::InvalidConfiguration(msg.to_string())
}

} // verus!
