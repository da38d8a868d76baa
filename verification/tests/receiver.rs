use std::cell::{Cell, RefCell};
use std::time::Duration;

use grafton_ndi::receiver::{
    retry_capture_with_clock, to_ms_checked, ReceiverBandwidth, ReceiverColorFormat,
    ReceiverOptionsBuilder, ReceiverStatus, RetryPolicy, Tally,
};
use grafton_ndi::sdk::{
    NDIlib_recv_bandwidth_audio_only, NDIlib_recv_bandwidth_highest, NDIlib_recv_bandwidth_lowest,
    NDIlib_recv_bandwidth_metadata_only, NDIlib_recv_color_format_BGRX_BGRA,
    NDIlib_recv_color_format_RGBX_RGBA, NDIlib_recv_color_format_UYVY_BGRA,
    NDIlib_recv_color_format_UYVY_RGBA, NDIlib_recv_color_format_best,
    NDIlib_recv_color_format_fastest,
};
use grafton_ndi::{Error, Source, SourceAddress};

#[derive(Default)]
struct FakeClock {
    elapsed: Cell<Duration>,
}

impl FakeClock {
    fn elapsed(&self) -> Duration {
        self.elapsed.get()
    }

    fn advance(&self, duration: Duration) {
        self.elapsed.set(self.elapsed.get() + duration);
    }
}

fn nanos(d: Duration) -> u128 {
    d.as_nanos()
}

#[test]
fn receiver_color_format_maps_to_exact_sdk_values() {
    assert_eq!(ReceiverColorFormat::BGRX_BGRA.to_sdk(), NDIlib_recv_color_format_BGRX_BGRA);
    assert_eq!(ReceiverColorFormat::UYVY_BGRA.to_sdk(), NDIlib_recv_color_format_UYVY_BGRA);
    assert_eq!(ReceiverColorFormat::RGBX_RGBA.to_sdk(), NDIlib_recv_color_format_RGBX_RGBA);
    assert_eq!(ReceiverColorFormat::UYVY_RGBA.to_sdk(), NDIlib_recv_color_format_UYVY_RGBA);
    assert_eq!(ReceiverColorFormat::Fastest.to_sdk(), NDIlib_recv_color_format_fastest);
    assert_eq!(ReceiverColorFormat::Best.to_sdk(), NDIlib_recv_color_format_best);
}

#[test]
fn receiver_bandwidth_maps_to_exact_sdk_values() {
    assert_eq!(ReceiverBandwidth::MetadataOnly.to_sdk(), NDIlib_recv_bandwidth_metadata_only);
    assert_eq!(ReceiverBandwidth::AudioOnly.to_sdk(), NDIlib_recv_bandwidth_audio_only);
    assert_eq!(ReceiverBandwidth::Lowest.to_sdk(), NDIlib_recv_bandwidth_lowest);
    assert_eq!(ReceiverBandwidth::Highest.to_sdk(), NDIlib_recv_bandwidth_highest);
}

#[test]
fn retry_caps_sub_poll_timeout_to_total_budget() {
    let clock = FakeClock::default();
    let policy = RetryPolicy {
        poll_interval: nanos(Duration::from_millis(100)),
        sleep_between: nanos(Duration::from_millis(10)),
    };
    let polls = RefCell::new(Vec::new());

    let result = retry_capture_with_clock(
        nanos(Duration::from_millis(25)),
        &policy,
        |poll| {
            polls.borrow_mut().push(poll);
            Ok(Some(42))
        },
        || nanos(clock.elapsed()),
        |_| {},
    );

    assert_eq!(result.unwrap(), 42);
    assert_eq!(*polls.borrow(), [nanos(Duration::from_millis(25))]);
}

#[test]
fn retry_zero_timeout_success_makes_one_nonblocking_attempt() {
    let clock = FakeClock::default();
    let polls = RefCell::new(Vec::new());

    let result = retry_capture_with_clock(
        nanos(Duration::ZERO),
        &RetryPolicy::default(),
        |poll| {
            polls.borrow_mut().push(poll);
            Ok(Some(42))
        },
        || nanos(clock.elapsed()),
        |_| panic!("zero-timeout success should not sleep"),
    );

    assert_eq!(result.unwrap(), 42);
    assert_eq!(*polls.borrow(), [nanos(Duration::ZERO)]);
}

#[test]
fn retry_succeeds_after_retry_before_timeout() {
    let clock = FakeClock::default();
    let attempts = Cell::new(0);

    let result = retry_capture_with_clock(
        nanos(Duration::from_millis(50)),
        &RetryPolicy::default(),
        |_| {
            attempts.set(attempts.get() + 1);
            if attempts.get() == 1 {
                Ok(None)
            } else {
                Ok(Some(42))
            }
        },
        || nanos(clock.elapsed()),
        |sleep| clock.advance(Duration::from_nanos(sleep as u64)),
    );

    assert_eq!(result.unwrap(), 42);
    assert_eq!(attempts.get(), 2);
}

#[test]
fn retry_shrinks_later_poll_to_remaining_budget() {
    let clock = FakeClock::default();
    let policy = RetryPolicy {
        poll_interval: nanos(Duration::from_millis(40)),
        sleep_between: nanos(Duration::from_millis(10)),
    };
    let polls = RefCell::new(Vec::new());
    let sleeps = RefCell::new(Vec::new());

    let result: Result<i32, Error> = retry_capture_with_clock(
        nanos(Duration::from_millis(50)),
        &policy,
        |poll| {
            polls.borrow_mut().push(poll);
            if polls.borrow().len() == 1 {
                clock.advance(Duration::from_millis(5));
            } else {
                clock.advance(Duration::from_nanos(poll as u64));
            }
            Ok(None)
        },
        || nanos(clock.elapsed()),
        |sleep| {
            sleeps.borrow_mut().push(sleep);
            clock.advance(Duration::from_nanos(sleep as u64));
        },
    );

    assert!(matches!(result, Err(Error::FrameTimeout { attempts: 2, .. })));
    assert_eq!(
        *polls.borrow(),
        [nanos(Duration::from_millis(40)), nanos(Duration::from_millis(35))]
    );
    assert_eq!(*sleeps.borrow(), [nanos(Duration::from_millis(10))]);
}

#[test]
fn retry_zero_timeout_miss_times_out_after_one_attempt() {
    let clock = FakeClock::default();
    let polls = RefCell::new(Vec::new());

    let result: Result<i32, Error> = retry_capture_with_clock(
        0,
        &RetryPolicy::default(),
        |poll| {
            polls.borrow_mut().push(poll);
            Ok(None)
        },
        || nanos(clock.elapsed()),
        |_| panic!("zero-timeout miss should not sleep"),
    );

    match result {
        Err(Error::FrameTimeout { attempts, elapsed_nanos }) => {
            assert_eq!(attempts, 1);
            assert_eq!(elapsed_nanos, 0);
        }
        _ => panic!("Expected FrameTimeout error"),
    }
    assert_eq!(*polls.borrow(), [0]);
}

#[test]
fn retry_caps_sleep_to_remaining_budget() {
    let clock = FakeClock::default();
    let policy = RetryPolicy {
        poll_interval: nanos(Duration::from_millis(8)),
        sleep_between: nanos(Duration::from_millis(5)),
    };
    let sleeps = RefCell::new(Vec::new());

    let result: Result<i32, Error> = retry_capture_with_clock(
        nanos(Duration::from_millis(10)),
        &policy,
        |poll| {
            assert_eq!(poll, nanos(Duration::from_millis(8)));
            clock.advance(Duration::from_millis(8));
            Ok(None)
        },
        || nanos(clock.elapsed()),
        |sleep| {
            sleeps.borrow_mut().push(sleep);
            clock.advance(Duration::from_nanos(sleep as u64));
        },
    );

    assert!(matches!(result, Err(Error::FrameTimeout { attempts: 1, .. })));
    assert_eq!(*sleeps.borrow(), [nanos(Duration::from_millis(2))]);
}

#[test]
fn retry_validates_total_timeout_before_attempts() {
    let attempts = Cell::new(0);
    let too_long = nanos(Duration::from_millis(u32::MAX as u64) + Duration::from_millis(1));

    let result: Result<i32, Error> = retry_capture_with_clock(
        too_long,
        &RetryPolicy::default(),
        |_| {
            attempts.set(attempts.get() + 1);
            Ok(Some(42))
        },
        || 0,
        |_| {},
    );

    assert!(matches!(result, Err(Error::InvalidConfiguration(_))));
    assert_eq!(attempts.get(), 0);
}

#[test]
fn retry_propagates_error() {
    let attempts = Cell::new(0);
    let sleeps = RefCell::new(Vec::new());

    let result: Result<i32, Error> = retry_capture_with_clock(
        nanos(Duration::from_secs(1)),
        &RetryPolicy::default(),
        |_| {
            attempts.set(attempts.get() + 1);
            Err(Error::CaptureFailed("test error".into()))
        },
        || 0,
        |sleep| sleeps.borrow_mut().push(sleep),
    );

    assert!(matches!(result, Err(Error::CaptureFailed(_))));
    assert_eq!(attempts.get(), 1);
    assert!(sleeps.borrow().is_empty());
}

#[test]
fn test_recv_status_creation() {
    let status = ReceiverStatus {
        tally: Some(Tally::new(true, false)),
        connections: Some(3),
        other: false,
    };

    assert!(status.tally.is_some());
    let tally = status.tally.unwrap();
    assert!(tally.on_program);
    assert!(!tally.on_preview);
    assert_eq!(status.connections, Some(3));
    assert!(!status.other);

    let status2 = ReceiverStatus { tally: None, connections: None, other: true };

    assert!(status2.tally.is_none());
    assert!(status2.connections.is_none());
    assert!(status2.other);
}

#[test]
fn test_tally_to_raw() {
    let tally = Tally::new(true, false);
    let raw = tally.to_raw();

    assert!(raw.on_program);
    assert!(!raw.on_preview);

    let tally2 = Tally::new(false, true);
    let raw2 = tally2.to_raw();

    assert!(!raw2.on_program);
    assert!(raw2.on_preview);
}

#[test]
fn test_retry_logic_constants() {
    let policy = RetryPolicy::default();
    let per_attempt_timeout_ms = policy.poll_interval / 1_000_000;
    assert!((10..=1000).contains(&per_attempt_timeout_ms));

    let sleep_between_retries_ms = policy.sleep_between / 1_000_000;
    assert!((1..=100).contains(&sleep_between_retries_ms));
}

#[test]
fn test_timeout_duration_calculation() {
    let timeout_ms: u32 = 5000;
    let timeout_duration = Duration::from_millis(timeout_ms.into());
    assert_eq!(to_ms_checked(timeout_duration.as_nanos()).unwrap(), 5000);

    let short_timeout_ms: u32 = 100;
    let short_duration = Duration::from_millis(short_timeout_ms.into());
    assert_eq!(to_ms_checked(short_duration.as_nanos()).unwrap(), 100);

    let long_timeout_ms: u32 = 60_000;
    let long_duration = Duration::from_millis(long_timeout_ms.into());
    assert_eq!(to_ms_checked(long_duration.as_nanos()).unwrap(), 60_000);
}

fn test_source() -> Source {
    Source {
        name: "Test Source".to_string(),
        address: SourceAddress::Ip("192.168.1.100:5960".to_string()),
    }
}

#[test]
fn test_receiver_snapshot_preset() {
    let source = test_source();
    let builder = ReceiverOptionsBuilder::snapshot_preset(source.clone());
    let customized = builder.name("My Snapshot Receiver");
    let _ = format!("{:?}", customized);
    let options = customized.build();
    assert_eq!(options.color_format, ReceiverColorFormat::RGBX_RGBA);
    assert_eq!(options.bandwidth, ReceiverBandwidth::Lowest);
    assert!(!options.allow_video_fields);
}

#[test]
fn test_receiver_high_quality_preset() {
    let source = test_source();
    let builder = ReceiverOptionsBuilder::high_quality_preset(source.clone());
    let customized = builder.name("My HQ Receiver");
    let _ = format!("{:?}", customized);
    let options = customized.build();
    assert_eq!(options.color_format, ReceiverColorFormat::RGBX_RGBA);
    assert_eq!(options.bandwidth, ReceiverBandwidth::Highest);
    assert!(options.allow_video_fields);
}

#[test]
fn test_receiver_monitoring_preset() {
    let source = test_source();
    let builder = ReceiverOptionsBuilder::monitoring_preset(source.clone());
    let customized = builder.name("My Monitor");
    let _ = format!("{:?}", customized);
    let options = customized.build();
    assert_eq!(options.color_format, ReceiverColorFormat::BGRX_BGRA);
    assert_eq!(options.bandwidth, ReceiverBandwidth::MetadataOnly);
    assert!(!options.allow_video_fields);
}

#[test]
fn test_receiver_presets_are_distinct() {
    let source = test_source();
    let snapshot = ReceiverOptionsBuilder::snapshot_preset(source.clone()).build();
    let hq = ReceiverOptionsBuilder::high_quality_preset(source.clone()).build();
    let monitor = ReceiverOptionsBuilder::monitoring_preset(source.clone()).build();
    assert_ne!(snapshot.bandwidth, hq.bandwidth);
    assert_ne!(hq.bandwidth, monitor.bandwidth);
    assert_ne!(snapshot.allow_video_fields, hq.allow_video_fields);
}

#[test]
fn receiver_options_defaults_emit_operational_raw_modes() {
    let raw = ReceiverOptionsBuilder::new(Source::default()).build().to_raw().unwrap();
    assert_eq!(raw.color_format, NDIlib_recv_color_format_BGRX_BGRA);
    assert_eq!(raw.bandwidth, NDIlib_recv_bandwidth_highest);
    assert!(raw.allow_video_fields);
    assert_eq!(raw.source.name, vec![0u8]);
}

fn assert_raw_receiver_modes(
    raw: &grafton_ndi::receiver::RawRecvCreate,
    expected_color_format: i32,
    expected_bandwidth: i32,
) {
    assert_eq!(raw.color_format, expected_color_format);
    assert_eq!(raw.bandwidth, expected_bandwidth);
    assert_ne!(raw.color_format, grafton_ndi::sdk::NDIlib_recv_color_format_max);
    assert_ne!(raw.bandwidth, grafton_ndi::sdk::NDIlib_recv_bandwidth_max);
}

#[test]
fn snapshot_preset_emits_operational_raw_modes() {
    let raw = ReceiverOptionsBuilder::snapshot_preset(Source::default()).build().to_raw().unwrap();

    assert_raw_receiver_modes(&raw, NDIlib_recv_color_format_RGBX_RGBA, NDIlib_recv_bandwidth_lowest);
    assert!(!raw.allow_video_fields);
}

#[test]
fn high_quality_preset_emits_operational_raw_modes() {
    let raw = ReceiverOptionsBuilder::high_quality_preset(Source::default()).build().to_raw().unwrap();

    assert_raw_receiver_modes(&raw, NDIlib_recv_color_format_RGBX_RGBA, NDIlib_recv_bandwidth_highest);
    assert!(raw.allow_video_fields);
}

#[test]
fn monitoring_preset_emits_operational_raw_modes() {
    let raw = ReceiverOptionsBuilder::monitoring_preset(Source::default()).build().to_raw().unwrap();

    assert_raw_receiver_modes(&raw, NDIlib_recv_color_format_BGRX_BGRA, NDIlib_recv_bandwidth_metadata_only);
    assert!(!raw.allow_video_fields);
}

#[test]
fn retry_timeout_counts_only_actual_capture_attempts() {
    let clock = FakeClock::default();
    let policy = RetryPolicy {
        poll_interval: nanos(Duration::from_millis(8)),
        sleep_between: nanos(Duration::from_millis(5)),
    };
    let polls = RefCell::new(Vec::new());

    let result: Result<i32, Error> = retry_capture_with_clock(
        nanos(Duration::from_millis(10)),
        &policy,
        |poll| {
            polls.borrow_mut().push(poll);
            clock.advance(Duration::from_millis(10));
            Ok(None)
        },
        || nanos(clock.elapsed()),
        |_| panic!("expired timeout should not sleep"),
    );

    match result {
        Err(Error::FrameTimeout { attempts, elapsed_nanos }) => {
            assert_eq!(attempts, 1);
            assert_eq!(elapsed_nanos, nanos(Duration::from_millis(10)));
        }
        _ => panic!("Expected FrameTimeout error"),
    }
    assert_eq!(*polls.borrow(), [nanos(Duration::from_millis(8))]);
}
