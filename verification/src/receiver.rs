//! Receiver configuration, status reports, connection statistics, and the retry
//! rule of reliable frame capture.
//!
//! Durations are counted in nanoseconds.

use vstd::prelude::*;

use crate::error::Error;
use crate::finder::{RawSource, Source};
use crate::sdk::{
    NDIlib_frame_type_status_change, NDIlib_recv_bandwidth_audio_only,
    NDIlib_recv_bandwidth_highest, NDIlib_recv_bandwidth_lowest,
    NDIlib_recv_bandwidth_metadata_only, NDIlib_recv_color_format_BGRX_BGRA,
    NDIlib_recv_color_format_RGBX_RGBA, NDIlib_recv_color_format_UYVY_BGRA,
    NDIlib_recv_color_format_UYVY_RGBA, NDIlib_recv_color_format_best,
    NDIlib_recv_color_format_fastest,
};

verus! {

/// Nanoseconds in a millisecond.
pub const NANOS_PER_MILLI: u128 = 1_000_000;

/// Longest timeout the SDK accepts, in nanoseconds: `u32::MAX` milliseconds.
pub const MAX_TIMEOUT_NANOS: u128 = 4_294_967_295 * 1_000_000;

/// Colour formats a receiver can deliver video in.
#[derive(Debug, Clone, Copy, PartialEq, Eq, Structural)]
#[non_exhaustive]
pub enum ReceiverColorFormat {
    BGRX_BGRA,
    UYVY_BGRA,
    RGBX_RGBA,
    UYVY_RGBA,
    Fastest,
    Best,
}

impl Default for ReceiverColorFormat {
    fn default() -> (r: ReceiverColorFormat)
        ensures
            r == ReceiverColorFormat::BGRX_BGRA,
    {
        ReceiverColorFormat::BGRX_BGRA
    }
}

/// The SDK value of a colour format.
pub open spec fn color_format_code(f: ReceiverColorFormat) -> i32 {
    match f {
        ReceiverColorFormat::BGRX_BGRA => NDIlib_recv_color_format_BGRX_BGRA,
        ReceiverColorFormat::UYVY_BGRA => NDIlib_recv_color_format_UYVY_BGRA,
        ReceiverColorFormat::RGBX_RGBA => NDIlib_recv_color_format_RGBX_RGBA,
        ReceiverColorFormat::UYVY_RGBA => NDIlib_recv_color_format_UYVY_RGBA,
        ReceiverColorFormat::Fastest => NDIlib_recv_color_format_fastest,
        ReceiverColorFormat::Best => NDIlib_recv_color_format_best,
    }
}

impl ReceiverColorFormat {
    /// The SDK value of the colour format.
    pub fn to_sdk(self) -> (r: i32)
        ensures
            r == color_format_code(self),
    {
        match self {
            ReceiverColorFormat::BGRX_BGRA => NDIlib_recv_color_format_BGRX_BGRA,
            ReceiverColorFormat::UYVY_BGRA => NDIlib_recv_color_format_UYVY_BGRA,
            ReceiverColorFormat::RGBX_RGBA => NDIlib_recv_color_format_RGBX_RGBA,
            ReceiverColorFormat::UYVY_RGBA => NDIlib_recv_color_format_UYVY_RGBA,
            ReceiverColorFormat::Fastest => NDIlib_recv_color_format_fastest,
            ReceiverColorFormat::Best => NDIlib_recv_color_format_best,
        }
    }
}

/// Bandwidth modes of a receiver.
#[derive(Debug, Clone, Copy, PartialEq, Eq, Structural)]
#[non_exhaustive]
pub enum ReceiverBandwidth {
    MetadataOnly,
    AudioOnly,
    Lowest,
    Highest,
}

impl Default for ReceiverBandwidth {
    fn default() -> (r: ReceiverBandwidth)
        ensures
            r == ReceiverBandwidth::Highest,
    {
        ReceiverBandwidth::Highest
    }
}

/// The SDK value of a bandwidth mode.
pub open spec fn bandwidth_code(b: ReceiverBandwidth) -> i32 {
    match b {
        ReceiverBandwidth::MetadataOnly => NDIlib_recv_bandwidth_metadata_only,
        ReceiverBandwidth::AudioOnly => NDIlib_recv_bandwidth_audio_only,
        ReceiverBandwidth::Lowest => NDIlib_recv_bandwidth_lowest,
        ReceiverBandwidth::Highest => NDIlib_recv_bandwidth_highest,
    }
}

impl ReceiverBandwidth {
    /// The SDK value of the bandwidth mode.
    pub fn to_sdk(self) -> (r: i32)
        ensures
            r == bandwidth_code(self),
    {
        match self {
            ReceiverBandwidth::MetadataOnly => NDIlib_recv_bandwidth_metadata_only,
            ReceiverBandwidth::AudioOnly => NDIlib_recv_bandwidth_audio_only,
            ReceiverBandwidth::Lowest => NDIlib_recv_bandwidth_lowest,
            ReceiverBandwidth::Highest => NDIlib_recv_bandwidth_highest,
        }
    }
}

/// Options of a receiver.
#[derive(Debug)]
pub struct ReceiverOptions {
    pub source_to_connect_to: Source,
    pub color_format: ReceiverColorFormat,
    pub bandwidth: ReceiverBandwidth,
    pub allow_video_fields: bool,
    pub ndi_recv_name: Option<String>,
}

impl Default for ReceiverOptions {
    fn default() -> (r: ReceiverOptions)
        ensures
            r.source_to_connect_to.name@ == Seq::<char>::empty(),
            r.source_to_connect_to.address is NoAddress,
            r.color_format == ReceiverColorFormat::BGRX_BGRA,
            r.bandwidth == ReceiverBandwidth::Highest,
            !r.allow_video_fields,
            r.ndi_recv_name is None,
    {
        ReceiverOptions {
            source_to_connect_to: Source::default(),
            color_format: ReceiverColorFormat::BGRX_BGRA,
            bandwidth: ReceiverBandwidth::Highest,
            allow_video_fields: false,
            ndi_recv_name: None,
        }
    }
}

/// What the SDK reads to create a receiver: the source's C strings, the colour
/// format and bandwidth values, the fields flag, and the receiver name as a C
/// string.
#[derive(Debug)]
pub struct RawRecvCreate {
    pub source: RawSource,
    pub color_format: i32,
    pub bandwidth: i32,
    pub allow_video_fields: bool,
    pub name: Option<Vec<u8>>,
}

impl ReceiverOptions {
    /// A builder for a receiver of `source`.
    pub fn builder(source: Source) -> (r: ReceiverOptionsBuilder)
        ensures
            r == ReceiverOptionsBuilder::spec_new(source),
    {
        ReceiverOptionsBuilder::new(source)
    }

    /// What the SDK reads to create the receiver. Text holding a NUL byte cannot
    /// be passed on.
    pub fn to_raw(&self) -> (r: Result<RawRecvCreate, Error>)
        ensures
            r is Ok <==> (self.source_to_connect_to.to_raw_ok() && (self.ndi_recv_name matches Some(
                n,
            ) ==> crate::text::c_string_ok(n@))),
            r matches Ok(raw) ==> raw.color_format == color_format_code(self.color_format)
                && raw.bandwidth == bandwidth_code(self.bandwidth) && raw.allow_video_fields
                == self.allow_video_fields && raw.source.name@ == crate::finder::c_string_of(
                self.source_to_connect_to.name@,
            ) && match self.ndi_recv_name {
                Some(n) => raw.name matches Some(b) && b@ == crate::finder::c_string_of(n@),
                None => raw.name is None,
            },
            r matches Err(e) ==> e is InvalidCString,
    {
        let source = self.source_to_connect_to.to_raw()?;
        let name = match &self.ndi_recv_name {
            Some(n) => Some(crate::text::c_string_bytes(n.as_str())?),
            None => None,
        };
        Ok(
            RawRecvCreate {
                source,
                color_format: self.color_format.to_sdk(),
                bandwidth: self.bandwidth.to_sdk(),
                allow_video_fields: self.allow_video_fields,
                name,
            },
        )
    }
}

/// Builder of [`ReceiverOptions`]. Unset fields default to BGRX/BGRA colour,
/// highest bandwidth, and video fields allowed.
#[derive(Debug)]
pub struct ReceiverOptionsBuilder {
    pub source_to_connect_to: Source,
    pub color_format: Option<ReceiverColorFormat>,
    pub bandwidth: Option<ReceiverBandwidth>,
    pub allow_video_fields: Option<bool>,
    pub ndi_recv_name: Option<String>,
}

impl ReceiverOptionsBuilder {
    /// A builder for `source` with every other field unset.
    pub open spec fn spec_new(source: Source) -> ReceiverOptionsBuilder {
        ReceiverOptionsBuilder {
            source_to_connect_to: source,
            color_format: None,
            bandwidth: None,
            allow_video_fields: None,
            ndi_recv_name: None,
        }
    }

    /// A builder for `source` with every other field unset.
    pub fn new(source: Source) -> (r: ReceiverOptionsBuilder)
        ensures
            r == ReceiverOptionsBuilder::spec_new(source),
    {
        ReceiverOptionsBuilder {
            source_to_connect_to: source,
            color_format: None,
            bandwidth: None,
            allow_video_fields: None,
            ndi_recv_name: None,
        }
    }

    /// Snapshots: RGBX/RGBA colour, lowest bandwidth, no video fields.
    pub fn snapshot_preset(source: Source) -> (r: ReceiverOptionsBuilder)
        ensures
            r == (ReceiverOptionsBuilder {
                color_format: Some(ReceiverColorFormat::RGBX_RGBA),
                bandwidth: Some(ReceiverBandwidth::Lowest),
                allow_video_fields: Some(false),
                ..ReceiverOptionsBuilder::spec_new(source)
            }),
    {
        ReceiverOptionsBuilder::new(source).color(ReceiverColorFormat::RGBX_RGBA).bandwidth(
            ReceiverBandwidth::Lowest,
        ).allow_video_fields(false)
    }

    /// Full-quality processing: RGBX/RGBA colour, highest bandwidth, video
    /// fields allowed.
    pub fn high_quality_preset(source: Source) -> (r: ReceiverOptionsBuilder)
        ensures
            r == (ReceiverOptionsBuilder {
                color_format: Some(ReceiverColorFormat::RGBX_RGBA),
                bandwidth: Some(ReceiverBandwidth::Highest),
                allow_video_fields: Some(true),
                ..ReceiverOptionsBuilder::spec_new(source)
            }),
    {
        ReceiverOptionsBuilder::new(source).color(ReceiverColorFormat::RGBX_RGBA).bandwidth(
            ReceiverBandwidth::Highest,
        ).allow_video_fields(true)
    }

    /// Tally and metadata monitoring: metadata-only bandwidth, no video fields,
    /// default colour.
    pub fn monitoring_preset(source: Source) -> (r: ReceiverOptionsBuilder)
        ensures
            r == (ReceiverOptionsBuilder {
                bandwidth: Some(ReceiverBandwidth::MetadataOnly),
                allow_video_fields: Some(false),
                ..ReceiverOptionsBuilder::spec_new(source)
            }),
    {
        ReceiverOptionsBuilder::new(source).bandwidth(ReceiverBandwidth::MetadataOnly).allow_video_fields(
            false,
        )
    }

    /// Sets the colour format.
    pub fn color(self, fmt: ReceiverColorFormat) -> (r: ReceiverOptionsBuilder)
        ensures
            r == (ReceiverOptionsBuilder { color_format: Some(fmt), ..self }),
    {
        ReceiverOptionsBuilder { color_format: Some(fmt), ..self }
    }

    /// Sets the bandwidth mode.
    pub fn bandwidth(self, bw: ReceiverBandwidth) -> (r: ReceiverOptionsBuilder)
        ensures
            r == (ReceiverOptionsBuilder { bandwidth: Some(bw), ..self }),
    {
        ReceiverOptionsBuilder { bandwidth: Some(bw), ..self }
    }

    /// Sets whether video fields are allowed.
    pub fn allow_video_fields(self, allow: bool) -> (r: ReceiverOptionsBuilder)
        ensures
            r == (ReceiverOptionsBuilder { allow_video_fields: Some(allow), ..self }),
    {
        ReceiverOptionsBuilder { allow_video_fields: Some(allow), ..self }
    }

    /// Sets the receiver's name.
    pub fn name(self, name: &str) -> (r: ReceiverOptionsBuilder)
        ensures
            r.ndi_recv_name matches Some(n) && n@ == name@,
            r.source_to_connect_to == self.source_to_connect_to,
            r.color_format == self.color_format,
            r.bandwidth == self.bandwidth,
            r.allow_video_fields == self.allow_video_fields,
    {
        ReceiverOptionsBuilder { ndi_recv_name: Some(name.to_string()), ..self }
    }

    /// The options, with defaults for unset fields.
    pub fn build(self) -> (r: ReceiverOptions)
        ensures
            r.source_to_connect_to == self.source_to_connect_to,
            r.color_format == match self.color_format {
                Some(f) => f,
                None => ReceiverColorFormat::BGRX_BGRA,
            },
            r.bandwidth == match self.bandwidth {
                Some(b) => b,
                None => ReceiverBandwidth::Highest,
            },
            r.allow_video_fields == match self.allow_video_fields {
                Some(a) => a,
                None => true,
            },
            r.ndi_recv_name == self.ndi_recv_name,
    {
        let color_format = match self.color_format {
            Some(f) => f,
            None => ReceiverColorFormat::BGRX_BGRA,
        };
        let bandwidth = match self.bandwidth {
            Some(b) => b,
            None => ReceiverBandwidth::Highest,
        };
        let allow_video_fields = match self.allow_video_fields {
            Some(a) => a,
            None => true,
        };
        ReceiverOptions {
            source_to_connect_to: self.source_to_connect_to,
            color_format,
            bandwidth,
            allow_video_fields,
            ndi_recv_name: self.ndi_recv_name,
        }
    }
}

/// Tally state: whether the source is on program and on preview.
#[derive(Debug, Clone, Copy, PartialEq, Eq, Structural)]
pub struct Tally {
    pub on_program: bool,
    pub on_preview: bool,
}

/// The SDK's tally structure.
#[derive(Debug, Clone, Copy, PartialEq, Eq, Structural)]
pub struct RawTally {
    pub on_program: bool,
    pub on_preview: bool,
}

impl Tally {
    /// A tally state.
    pub fn new(on_program: bool, on_preview: bool) -> (r: Tally)
        ensures
            r.on_program == on_program,
            r.on_preview == on_preview,
    {
        Tally { on_program, on_preview }
    }

    /// The SDK's tally structure for this state.
    pub fn to_raw(&self) -> (r: RawTally)
        ensures
            r.on_program == self.on_program,
            r.on_preview == self.on_preview,
    {
        RawTally { on_program: self.on_program, on_preview: self.on_preview }
    }
}

/// A status change reported by a receiver.
#[derive(Debug, Clone, Copy, PartialEq, Eq, Structural)]
pub struct ReceiverStatus {
    /// Tally state, if known.
    pub tally: Option<Tally>,
    /// Number of connections, if known.
    pub connections: Option<i32>,
    /// True when the change is neither tally nor connections.
    pub other: bool,
}

/// The status a receiver reports after a status poll: nothing unless the SDK
/// answered with a status change; then the connection count when it is not
/// negative, and `other` when neither tally nor connections are known (the SDK
/// offers no tally query).
pub fn status_from_poll(frame_type: u32, connection_count: i32) -> (r: Option<ReceiverStatus>)
    ensures
        frame_type != NDIlib_frame_type_status_change ==> r is None,
        frame_type == NDIlib_frame_type_status_change ==> r == Some(
            ReceiverStatus {
                tally: None,
                connections: if connection_count >= 0 {
                    Some(connection_count)
                } else {
                    None
                },
                other: connection_count < 0,
            },
        ),
{
    if frame_type != NDIlib_frame_type_status_change {
        return None;
    }
    let tally: Option<Tally> = None;
    let connections = if connection_count >= 0 {
        Some(connection_count)
    } else {
        None
    };
    let has_tally = tally.is_some();
    let has_connections = connections.is_some();
    Some(ReceiverStatus { tally, connections, other: !has_tally && !has_connections })
}

/// Connection and frame counts of a receiver.
#[derive(Debug, Clone, Copy, PartialEq, Eq, Structural)]
pub struct ConnectionStats {
    pub connections: u32,
    pub video_frames_received: u64,
    pub audio_frames_received: u64,
    pub metadata_frames_received: u64,
    pub video_frames_dropped: u64,
    pub audio_frames_dropped: u64,
    pub metadata_frames_dropped: u64,
    pub video_frames_queued: u32,
    pub audio_frames_queued: u32,
    pub metadata_frames_queued: u32,
}

/// A count the SDK reports, with negative values read as zero.
pub open spec fn clamp_count(v: int) -> int {
    if v < 0 {
        0
    } else {
        v
    }
}

/// A signed 64-bit count, negative values read as zero.
fn clamp_i64(v: i64) -> (r: u64)
    ensures
        r == clamp_count(v as int),
{
    if v < 0 {
        0
    } else {
        v as u64
    }
}

/// A signed 32-bit count, negative values read as zero.
fn clamp_i32(v: i32) -> (r: u32)
    ensures
        r == clamp_count(v as int),
{
    if v < 0 {
        0
    } else {
        v as u32
    }
}

impl ConnectionStats {
    /// Statistics from the SDK's counts: connections, then received, dropped and
    /// queued frames as (video, audio, metadata); negative counts become zero.
    pub fn from_sdk_counts(
        connections: i32,
        received: (i64, i64, i64),
        dropped: (i64, i64, i64),
        queued: (i32, i32, i32),
    ) -> (r: ConnectionStats)
        ensures
            r.connections == clamp_count(connections as int),
            r.video_frames_received == clamp_count(received.0 as int),
            r.audio_frames_received == clamp_count(received.1 as int),
            r.metadata_frames_received == clamp_count(received.2 as int),
            r.video_frames_dropped == clamp_count(dropped.0 as int),
            r.audio_frames_dropped == clamp_count(dropped.1 as int),
            r.metadata_frames_dropped == clamp_count(dropped.2 as int),
            r.video_frames_queued == clamp_count(queued.0 as int),
            r.audio_frames_queued == clamp_count(queued.1 as int),
            r.metadata_frames_queued == clamp_count(queued.2 as int),
    {
        ConnectionStats {
            connections: clamp_i32(connections),
            video_frames_received: clamp_i64(received.0),
            audio_frames_received: clamp_i64(received.1),
            metadata_frames_received: clamp_i64(received.2),
            video_frames_dropped: clamp_i64(dropped.0),
            audio_frames_dropped: clamp_i64(dropped.1),
            metadata_frames_dropped: clamp_i64(dropped.2),
            video_frames_queued: clamp_i32(queued.0),
            audio_frames_queued: clamp_i32(queued.1),
            metadata_frames_queued: clamp_i32(queued.2),
        }
    }

    /// Whether there is at least one connection.
    pub fn is_connected(&self) -> (r: bool)
        ensures
            r == (self.connections > 0),
    {
        self.connections > 0
    }
}

/// A timeout converted to the SDK's milliseconds, if it is at most
/// [`MAX_TIMEOUT_NANOS`]; sub-millisecond parts are dropped.
pub fn to_ms_checked(timeout_nanos: u128) -> (r: Result<u32, Error>)
    ensures
        r is Ok <==> timeout_nanos / NANOS_PER_MILLI <= u32::MAX,
        r matches Ok(ms) ==> ms == timeout_nanos / NANOS_PER_MILLI,
        r matches Err(e) ==> e is InvalidConfiguration,
{
    let ms = timeout_nanos / NANOS_PER_MILLI;
    if ms > u32::MAX as u128 {
        Err(crate::error::invalid_configuration("timeout exceeds MAX_TIMEOUT (~49.7 days)"))
    } else {
        Ok(ms as u32)
    }
}

/// What is left of a budget of `timeout` nanoseconds after `elapsed` of them,
/// never less than zero.
pub fn remaining_budget(timeout: u128, elapsed: u128) -> (r: u128)
    ensures
        r == if elapsed >= timeout {
            0
        } else {
            timeout - elapsed
        },
{
    if elapsed >= timeout {
        0
    } else {
        timeout - elapsed
    }
}

/// Timing of capture retries: the longest single poll and the pause after a
/// miss, in nanoseconds.
#[derive(Debug, Clone, Copy, PartialEq, Eq, Structural)]
pub struct RetryPolicy {
    pub poll_interval: u128,
    pub sleep_between: u128,
}

impl Default for RetryPolicy {
    /// Polls of at most 100 ms, pauses of 10 ms.
    fn default() -> (r: RetryPolicy)
        ensures
            r.poll_interval == 100 * NANOS_PER_MILLI,
            r.sleep_between == 10 * NANOS_PER_MILLI,
    {
        RetryPolicy { poll_interval: 100_000_000, sleep_between: 10_000_000 }
    }
}

/// The next step of a retried capture.
#[derive(Debug, Clone, Copy, PartialEq, Eq, Structural)]
pub enum RetryStep {
    /// Poll once with this timeout.
    Poll(u128),
    /// Pause this long (nothing when zero), then try again.
    Sleep(u128),
    /// Give up: the budget is spent.
    GiveUp,
}

/// The smaller of two durations.
pub open spec fn min_nanos(a: u128, b: u128) -> u128 {
    if a <= b {
        a
    } else {
        b
    }
}

/// Before an attempt, with `elapsed` of a nonzero `timeout` used: give up when
/// nothing is left, else poll for the per-poll interval or what is left,
/// whichever is shorter.
pub fn retry_before_attempt(timeout: u128, policy: &RetryPolicy, elapsed: u128) -> (r: RetryStep)
    ensures
        elapsed >= timeout ==> r == RetryStep::GiveUp,
        elapsed < timeout ==> r == RetryStep::Poll(
            min_nanos(policy.poll_interval, (timeout - elapsed) as u128),
        ),
{
    if elapsed >= timeout {
        return RetryStep::GiveUp;
    }
    let remaining = timeout - elapsed;
    if policy.poll_interval <= remaining {
        RetryStep::Poll(policy.poll_interval)
    } else {
        RetryStep::Poll(remaining)
    }
}

/// After a miss, with `elapsed` of a nonzero `timeout` used: give up when
/// nothing is left, else pause for the configured time or what is left,
/// whichever is shorter.
pub fn retry_after_miss(timeout: u128, policy: &RetryPolicy, elapsed: u128) -> (r: RetryStep)
    ensures
        elapsed >= timeout ==> r == RetryStep::GiveUp,
        elapsed < timeout ==> r == RetryStep::Sleep(
            min_nanos(policy.sleep_between, (timeout - elapsed) as u128),
        ),
{
    if elapsed >= timeout {
        return RetryStep::GiveUp;
    }
    let remaining = timeout - elapsed;
    if policy.sleep_between <= remaining {
        RetryStep::Sleep(policy.sleep_between)
    } else {
        RetryStep::Sleep(remaining)
    }
}

/// No step of a retried capture reaches past the budget: a poll or a pause lasts
/// at most what is left of the timeout, and at most the policy's interval.
pub proof fn lemma_retry_steps_within_budget(timeout: u128, policy: RetryPolicy, elapsed: u128)
    ensures
        elapsed < timeout ==> min_nanos(policy.poll_interval, (timeout - elapsed) as u128) + elapsed
            <= timeout,
        elapsed < timeout ==> min_nanos(policy.sleep_between, (timeout - elapsed) as u128) + elapsed
            <= timeout,
        min_nanos(policy.poll_interval, (timeout - elapsed) as u128) <= policy.poll_interval,
        min_nanos(policy.sleep_between, (timeout - elapsed) as u128) <= policy.sleep_between,
{
}

/// The poll timeout of an attempt that starts with `before` of `timeout` used.
pub open spec fn poll_for(timeout: u128, policy: RetryPolicy, before: u128) -> u128 {
    min_nanos(policy.poll_interval, (timeout - before) as u128)
}

/// The pause after a miss when `after` of `timeout` is used.
pub open spec fn pause_for(timeout: u128, policy: RetryPolicy, after: u128) -> u128 {
    min_nanos(policy.sleep_between, (timeout - after) as u128)
}

/// Where a retried capture stands.
#[derive(Debug, Clone, Copy, PartialEq, Eq, Structural)]
pub enum RetryPhase {
    /// About to read the clock before an attempt.
    BeforeAttempt,
    /// Waiting for the outcome of a poll.
    Polling,
    /// About to read the clock after a poll that found nothing.
    AfterMiss,
    /// Waiting for a pause to end.
    Pausing,
    /// Finished.
    Done,
}

/// The state of a retried capture: the attempts started so far and the phase.
#[derive(Debug, Clone, Copy, PartialEq, Eq, Structural)]
pub struct RetryState {
    pub attempts: usize,
    pub phase: RetryPhase,
}

/// What the caller reports back to a retried capture.
#[derive(Debug)]
pub enum RetryEvent<T> {
    /// The clock read this many nanoseconds since the capture began.
    Clock(u128),
    /// A poll returned this.
    Polled(Result<Option<T>, Error>),
    /// A pause ended.
    Slept,
}

/// What a retried capture asks the caller to do next.
#[derive(Debug)]
pub enum RetryAction<T> {
    /// Read the clock.
    ReadClock,
    /// Poll once with this timeout.
    Poll(u128),
    /// Pause this long.
    Sleep(u128),
    /// Stop with this result.
    Finish(Result<T, Error>),
}

/// The first step of a capture with a budget of `timeout` (within the SDK's
/// limit): a zero timeout polls once for zero at once, counting the attempt;
/// otherwise the clock is read first.
pub open spec fn retry_begin_spec<T>(timeout: u128) -> (RetryState, RetryAction<T>) {
    if timeout == 0 {
        (RetryState { attempts: 1, phase: RetryPhase::Polling }, RetryAction::Poll(0))
    } else {
        (RetryState { attempts: 0, phase: RetryPhase::BeforeAttempt }, RetryAction::ReadClock)
    }
}

/// One step of a retried capture:
/// - before an attempt, a clock reading at or past the budget (or a count at its
///   limit) ends with a timeout counting the attempts; otherwise the next attempt
///   is counted and polls for the interval or what is left, whichever is shorter;
/// - a poll's frame or error ends the capture with it; a miss reads the clock;
/// - after a miss, a reading at or past the budget ends with a timeout; otherwise
///   the capture pauses for the pause or what is left (no pause when that is
///   zero) and then reads the clock for the next attempt.
pub open spec fn retry_next<T>(timeout: u128, policy: RetryPolicy, s: RetryState, e: RetryEvent<T>) -> (
    RetryState,
    RetryAction<T>,
) {
    let done = RetryState { attempts: s.attempts, phase: RetryPhase::Done };
    match (s.phase, e) {
        (RetryPhase::BeforeAttempt, RetryEvent::Clock(b)) => if b >= timeout || s.attempts
            == usize::MAX {
            (
                done,
                RetryAction::Finish(
                    Err(Error::FrameTimeout { attempts: s.attempts, elapsed_nanos: b }),
                ),
            )
        } else {
            (
                RetryState { attempts: (s.attempts + 1) as usize, phase: RetryPhase::Polling },
                RetryAction::Poll(poll_for(timeout, policy, b)),
            )
        },
        (RetryPhase::Polling, RetryEvent::Polled(o)) => match o {
            Ok(Some(f)) => (done, RetryAction::Finish(Ok(f))),
            Err(x) => (done, RetryAction::Finish(Err(x))),
            Ok(None) => (
                RetryState { attempts: s.attempts, phase: RetryPhase::AfterMiss },
                RetryAction::ReadClock,
            ),
        },
        (RetryPhase::AfterMiss, RetryEvent::Clock(a)) => if a >= timeout {
            (
                done,
                RetryAction::Finish(
                    Err(Error::FrameTimeout { attempts: s.attempts, elapsed_nanos: a }),
                ),
            )
        } else if pause_for(timeout, policy, a) != 0 {
            (
                RetryState { attempts: s.attempts, phase: RetryPhase::Pausing },
                RetryAction::Sleep(pause_for(timeout, policy, a)),
            )
        } else {
            (
                RetryState { attempts: s.attempts, phase: RetryPhase::BeforeAttempt },
                RetryAction::ReadClock,
            )
        },
        (RetryPhase::Pausing, RetryEvent::Slept) => (
            RetryState { attempts: s.attempts, phase: RetryPhase::BeforeAttempt },
            RetryAction::ReadClock,
        ),
        _ => (done, RetryAction::Finish(Err(Error::FrameTimeout { attempts: s.attempts, elapsed_nanos: 0 }))),
    }
}

/// Whether `e` is the kind of report that `a` asks for.
pub open spec fn answers<T>(a: RetryAction<T>, e: RetryEvent<T>) -> bool {
    match (a, e) {
        (RetryAction::ReadClock, RetryEvent::Clock(_)) => true,
        (RetryAction::Poll(_), RetryEvent::Polled(_)) => true,
        (RetryAction::Sleep(_), RetryEvent::Slept) => true,
        _ => false,
    }
}

/// Where a capture with a budget of `timeout` stands after the reports
/// `events`, fed in order from its first step.
pub open spec fn retry_run<T>(timeout: u128, policy: RetryPolicy, events: Seq<RetryEvent<T>>) -> (
    RetryState,
    RetryAction<T>,
)
    decreases events.len(),
{
    if events.len() == 0 {
        retry_begin_spec(timeout)
    } else {
        let p = retry_run(timeout, policy, events.drop_last());
        retry_next(timeout, policy, p.0, events.last())
    }
}

/// Reports that answer, in order, what the capture asked, none after it
/// finished.
pub open spec fn retry_events_fit<T>(timeout: u128, policy: RetryPolicy, events: Seq<RetryEvent<T>>) -> bool
    decreases events.len(),
{
    events.len() == 0 || {
        &&& retry_events_fit(timeout, policy, events.drop_last())
        &&& answers(retry_run(timeout, policy, events.drop_last()).1, events.last())
    }
}

/// The number of polls reported in `events`.
pub open spec fn polls_made<T>(events: Seq<RetryEvent<T>>) -> nat
    decreases events.len(),
{
    if events.len() == 0 {
        0
    } else {
        polls_made(events.drop_last()) + if events.last() is Polled {
            1nat
        } else {
            0nat
        }
    }
}

/// Whether the phase and the requested action belong together.
pub open spec fn phase_fits<T>(s: RetryState, a: RetryAction<T>) -> bool {
    match s.phase {
        RetryPhase::BeforeAttempt => a is ReadClock,
        RetryPhase::Polling => a is Poll,
        RetryPhase::AfterMiss => a is ReadClock,
        RetryPhase::Pausing => a is Sleep,
        RetryPhase::Done => a is Finish,
    }
}

/// What a retried capture does, over every run of fitting reports: the
/// capture finishes exactly when its phase says so; the attempts counted are the
/// polls reported, plus one while a poll is pending; a frame is returned only as
/// the last report, and only the first frame is ever reported; a capture that
/// ends with an error ends with a poll's own error or with a timeout at the last
/// clock reading that counts the polls made.
pub proof fn lemma_retry_run<T>(timeout: u128, policy: RetryPolicy, events: Seq<RetryEvent<T>>)
    requires
        retry_events_fit(timeout, policy, events),
    ensures
        phase_fits(retry_run(timeout, policy, events).0, retry_run(timeout, policy, events).1),
        retry_run(timeout, policy, events).0.attempts == polls_made(events) + if retry_run(
            timeout,
            policy,
            events,
        ).1 is Poll {
            1nat
        } else {
            0nat
        },
        forall|i: int|
            0 <= i < events.len() && (#[trigger] events[i] matches RetryEvent::Polled(Ok(Some(_))))
                ==> i == events.len() - 1,
        retry_run(timeout, policy, events).1 matches RetryAction::Finish(Ok(f)) ==> events.len() > 0
            && events.last() == RetryEvent::<T>::Polled(Ok(Some(f))),
        retry_run(timeout, policy, events).1 matches RetryAction::Finish(Err(x)) ==> events.len() > 0
            && (events.last() == RetryEvent::<T>::Polled(Err(x)) || (events.last() matches RetryEvent::Clock(t)
            && x == Error::FrameTimeout { attempts: polls_made(events) as usize, elapsed_nanos: t })),
    decreases events.len(),
{
    if events.len() > 0 {
        let pre = events.drop_last();
        lemma_retry_run(timeout, policy, pre);
        assert forall|i: int|
            0 <= i < events.len() && (#[trigger] events[i] matches RetryEvent::Polled(Ok(Some(_))))
                implies i == events.len() - 1 by {
            if i < events.len() - 1 {
                assert(pre[i] == events[i]);
            }
        }
    }
}

/// The first step of a capture with a budget of `timeout` nanoseconds.
pub fn retry_begin<T>(timeout: u128) -> (r: (RetryState, RetryAction<T>))
    ensures
        r == retry_begin_spec::<T>(timeout),
{
    if timeout == 0 {
        (RetryState { attempts: 1, phase: RetryPhase::Polling }, RetryAction::Poll(0))
    } else {
        (RetryState { attempts: 0, phase: RetryPhase::BeforeAttempt }, RetryAction::ReadClock)
    }
}

/// One step of a retried capture, from its state and the report that answers
/// what it asked.
pub fn retry_step<T>(timeout: u128, policy: &RetryPolicy, s: RetryState, e: RetryEvent<T>) -> (r: (
    RetryState,
    RetryAction<T>,
))
    ensures
        r == retry_next(timeout, *policy, s, e),
{
    let done = RetryState { attempts: s.attempts, phase: RetryPhase::Done };
    match (s.phase, e) {
        (RetryPhase::BeforeAttempt, RetryEvent::Clock(b)) => {
            match retry_before_attempt(timeout, policy, b) {
                RetryStep::Poll(p) => {
                    if s.attempts == usize::MAX {
                        (done, RetryAction::Finish(Err(Error::FrameTimeout { attempts: s.attempts, elapsed_nanos: b })))
                    } else {
                        (RetryState { attempts: s.attempts + 1, phase: RetryPhase::Polling }, RetryAction::Poll(p))
                    }
                },
                _ => (done, RetryAction::Finish(Err(Error::FrameTimeout { attempts: s.attempts, elapsed_nanos: b }))),
            }
        },
        (RetryPhase::Polling, RetryEvent::Polled(o)) => match o {
            Ok(Some(f)) => (done, RetryAction::Finish(Ok(f))),
            Err(x) => (done, RetryAction::Finish(Err(x))),
            Ok(None) => (RetryState { attempts: s.attempts, phase: RetryPhase::AfterMiss }, RetryAction::ReadClock),
        },
        (RetryPhase::AfterMiss, RetryEvent::Clock(a)) => {
            match retry_after_miss(timeout, policy, a) {
                RetryStep::Sleep(d) => {
                    if d != 0 {
                        (RetryState { attempts: s.attempts, phase: RetryPhase::Pausing }, RetryAction::Sleep(d))
                    } else {
                        (RetryState { attempts: s.attempts, phase: RetryPhase::BeforeAttempt }, RetryAction::ReadClock)
                    }
                },
                _ => (done, RetryAction::Finish(Err(Error::FrameTimeout { attempts: s.attempts, elapsed_nanos: a }))),
            }
        },
        (RetryPhase::Pausing, RetryEvent::Slept) => (
            RetryState { attempts: s.attempts, phase: RetryPhase::BeforeAttempt },
            RetryAction::ReadClock,
        ),
        _ => (done, RetryAction::Finish(Err(Error::FrameTimeout { attempts: s.attempts, elapsed_nanos: 0 }))),
    }
}

/// Reports that are a run of the capture and that the callbacks can give: each
/// clock reading one `elapsed` can return, each poll outcome one `capture_fn`
/// can return for the requested timeout, each pause one `sleep` was asked for.
pub open spec fn retry_trace<T, F, E, S>(
    timeout: u128,
    policy: RetryPolicy,
    capture_fn: F,
    elapsed: E,
    sleep: S,
    events: Seq<RetryEvent<T>>,
) -> bool where F: Fn(u128) -> Result<Option<T>, Error>, E: Fn() -> u128, S: Fn(u128)
    decreases events.len(),
{
    events.len() == 0 || {
        &&& retry_trace(timeout, policy, capture_fn, elapsed, sleep, events.drop_last())
        &&& match (retry_run(timeout, policy, events.drop_last()).1, events.last()) {
            (RetryAction::ReadClock, RetryEvent::Clock(t)) => call_ensures(elapsed, (), t),
            (RetryAction::Poll(p), RetryEvent::Polled(o)) => call_ensures(capture_fn, (p,), o),
            (RetryAction::Sleep(d), RetryEvent::Slept) => call_ensures(sleep, (d,), ()),
            _ => false,
        }
    }
}

/// A run of the callbacks' reports is a run of fitting reports.
pub proof fn lemma_trace_fits<T, F, E, S>(
    timeout: u128,
    policy: RetryPolicy,
    capture_fn: F,
    elapsed: E,
    sleep: S,
    events: Seq<RetryEvent<T>>,
) where F: Fn(u128) -> Result<Option<T>, Error>, E: Fn() -> u128, S: Fn(u128)
    requires
        retry_trace(timeout, policy, capture_fn, elapsed, sleep, events),
    ensures
        retry_events_fit(timeout, policy, events),
    decreases events.len(),
{
    if events.len() > 0 {
        lemma_trace_fits(timeout, policy, capture_fn, elapsed, sleep, events.drop_last());
    }
}

/// How far along a capture is, for termination: each step lowers it.
pub open spec fn retry_measure(s: RetryState) -> int {
    5 * (usize::MAX - s.attempts) + match s.phase {
        RetryPhase::Done => 0int,
        RetryPhase::BeforeAttempt => 1int,
        RetryPhase::Pausing => 2int,
        RetryPhase::AfterMiss => 3int,
        RetryPhase::Polling => 4int,
    }
}

/// Captures with retries within a total budget of `timeout` nanoseconds, by
/// running [`retry_step`]: it asks for clock readings, polls and pauses, and the
/// callbacks answer. A timeout above the SDK's limit is refused before any poll.
/// Otherwise the result is the one that ends a run of the capture whose reports
/// the callbacks can give, so [`lemma_retry_run`] describes it: a zero timeout
/// makes exactly one poll for zero; each poll lasts at most the interval and
/// what is left; a frame is the first one polled; a timeout counts the polls.
pub fn retry_capture_with_clock<T, F, E, S>(
    timeout: u128,
    policy: &RetryPolicy,
    capture_fn: F,
    elapsed: E,
    sleep: S,
) -> (r: Result<T, Error>) where
    F: Fn(u128) -> Result<Option<T>, Error>,
    E: Fn() -> u128,
    S: Fn(u128),

    requires
        forall|p: u128| call_requires(capture_fn, (p,)),
        call_requires(elapsed, ()),
        forall|d: u128| call_requires(sleep, (d,)),
    ensures
        timeout / NANOS_PER_MILLI > u32::MAX ==> (r matches Err(e) && e is InvalidConfiguration),
        timeout / NANOS_PER_MILLI <= u32::MAX ==> exists|events: Seq<RetryEvent<T>>|
            #[trigger] retry_trace(timeout, *policy, capture_fn, elapsed, sleep, events) && retry_run(
                timeout,
                *policy,
                events,
            ).1 == RetryAction::Finish(r),
{
    match to_ms_checked(timeout) {
        Ok(_) => {},
        Err(e) => {
            return Err(e);
        },
    }
    let (mut state, mut action) = retry_begin::<T>(timeout);
    let ghost mut events: Seq<RetryEvent<T>> = Seq::empty();
    loop
        invariant
            forall|p: u128| call_requires(capture_fn, (p,)),
            call_requires(elapsed, ()),
            forall|d: u128| call_requires(sleep, (d,)),
            timeout / NANOS_PER_MILLI <= u32::MAX,
            (state, action) == retry_run(timeout, *policy, events),
            retry_trace(timeout, *policy, capture_fn, elapsed, sleep, events),
        decreases retry_measure(state),
    {
        proof {
            lemma_trace_fits(timeout, *policy, capture_fn, elapsed, sleep, events);
            lemma_retry_run(timeout, *policy, events);
        }
        let ghost before = events;
        let ghost asked = action;
        let event = match action {
            RetryAction::ReadClock => RetryEvent::Clock(elapsed()),
            RetryAction::Poll(p) => RetryEvent::Polled(capture_fn(p)),
            RetryAction::Sleep(d) => {
                sleep(d);
                RetryEvent::Slept
            },
            RetryAction::Finish(r) => {
                return r;
            },
        };
        let ghost ev = event;
        let (s2, a2) = retry_step(timeout, policy, state, event);
        proof {
            assert(answers(asked, ev));
            assert(state.phase != RetryPhase::Done);
            assert(retry_measure(s2) < retry_measure(state));
            events = before.push(ev);
            assert(events.drop_last() =~= before);
        }
        state = s2;
        action = a2;
    }
}

} // verus!
