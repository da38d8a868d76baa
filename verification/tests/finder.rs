use grafton_ndi::finder::{select_source, FinderOptions, FinderOptionsBuilder, SourceCache};
use grafton_ndi::format::LineStrideOrSize;
use grafton_ndi::image::ImageFormat;
use grafton_ndi::{Error, Source, SourceAddress};

#[test]
fn test_source_address_contains_host() {
    let ip_addr = SourceAddress::Ip("192.168.1.100:5960".to_string());
    assert!(ip_addr.contains_host("192.168.1.100"));
    assert!(ip_addr.contains_host("192.168.1"));
    assert!(ip_addr.contains_host("5960"));
    assert!(!ip_addr.contains_host("192.168.2"));

    let url_addr = SourceAddress::Url("http://camera.local:8080".to_string());
    assert!(url_addr.contains_host("camera.local"));
    assert!(url_addr.contains_host("camera"));
    assert!(url_addr.contains_host("8080"));
    assert!(!url_addr.contains_host("other.local"));

    let none_addr = SourceAddress::NoAddress;
    assert!(!none_addr.contains_host("anything"));
}

#[test]
fn test_source_address_port() {
    let ip_with_port = SourceAddress::Ip("192.168.1.100:5960".to_string());
    assert_eq!(ip_with_port.port(), Some(5960));

    let ip_no_port = SourceAddress::Ip("192.168.1.100".to_string());
    assert_eq!(ip_no_port.port(), None);

    let url_with_port = SourceAddress::Url("http://camera.local:8080".to_string());
    assert_eq!(url_with_port.port(), Some(8080));

    let url_with_path = SourceAddress::Url("http://camera.local:8080/stream".to_string());
    assert_eq!(url_with_path.port(), Some(8080));

    let url_no_port = SourceAddress::Url("http://camera.local".to_string());
    assert_eq!(url_no_port.port(), None);

    let url_scheme_only = SourceAddress::Url("http://camera.local/stream".to_string());
    assert_eq!(url_scheme_only.port(), None);

    let none_addr = SourceAddress::NoAddress;
    assert_eq!(none_addr.port(), None);

    let ipv6_style = SourceAddress::Ip("fe80::1:5960".to_string());
    assert_eq!(ipv6_style.port(), Some(5960));
}

#[test]
fn port_parsing_follows_u16_rules() {
    assert_eq!(SourceAddress::Ip("host:+80".to_string()).port(), Some(80));
    assert_eq!(SourceAddress::Ip("host:65535".to_string()).port(), Some(65535));
    assert_eq!(SourceAddress::Ip("host:65536".to_string()).port(), None);
    assert_eq!(SourceAddress::Ip("host:".to_string()).port(), None);
    assert_eq!(SourceAddress::Ip("host:+".to_string()).port(), None);
    assert_eq!(SourceAddress::Ip("host:-1".to_string()).port(), None);
    assert_eq!(SourceAddress::Ip("host:80a".to_string()).port(), None);
}

#[test]
fn test_source_matches_host() {
    let source = Source {
        name: "CAMERA1 (Chan1)".to_string(),
        address: SourceAddress::Ip("192.168.0.107:5960".to_string()),
    };
    assert!(source.matches_host("192.168.0.107"));
    assert!(source.matches_host("192.168.0"));
    assert!(!source.matches_host("192.168.1"));

    assert!(source.matches_host("CAMERA1"));
    assert!(source.matches_host("Chan1"));
    assert!(!source.matches_host("CAMERA2"));

    let url_source = Source {
        name: "Studio Camera".to_string(),
        address: SourceAddress::Url("http://studio.local:8080".to_string()),
    };
    assert!(url_source.matches_host("studio.local"));
    assert!(url_source.matches_host("Studio"));
    assert!(!url_source.matches_host("other"));

    let no_addr_source = Source {
        name: "Local Source".to_string(),
        address: SourceAddress::NoAddress,
    };
    assert!(no_addr_source.matches_host("Local"));
    assert!(!no_addr_source.matches_host("192.168.1.1"));
}

#[test]
fn test_source_ip_address() {
    let ip_source = Source {
        name: "CAMERA1".to_string(),
        address: SourceAddress::Ip("192.168.1.100:5960".to_string()),
    };
    assert_eq!(ip_source.ip_address(), Some("192.168.1.100"));

    let ip_no_port = Source {
        name: "CAMERA2".to_string(),
        address: SourceAddress::Ip("192.168.1.101".to_string()),
    };
    assert_eq!(ip_no_port.ip_address(), Some("192.168.1.101"));

    let url_source = Source {
        name: "Studio".to_string(),
        address: SourceAddress::Url("http://camera.local:8080".to_string()),
    };
    assert_eq!(url_source.ip_address(), Some("camera.local"));

    let url_with_path = Source {
        name: "Studio2".to_string(),
        address: SourceAddress::Url("http://camera.local:8080/stream".to_string()),
    };
    assert_eq!(url_with_path.ip_address(), Some("camera.local"));

    let url_no_scheme = Source {
        name: "Studio3".to_string(),
        address: SourceAddress::Url("camera.local:8080".to_string()),
    };
    assert_eq!(url_no_scheme.ip_address(), Some("camera.local"));

    let none_source = Source {
        name: "None".to_string(),
        address: SourceAddress::NoAddress,
    };
    assert_eq!(none_source.ip_address(), None);
}

#[test]
fn test_source_host() {
    let source = Source {
        name: "CAMERA1".to_string(),
        address: SourceAddress::Ip("192.168.1.100:5960".to_string()),
    };
    assert_eq!(source.host(), source.ip_address());
    assert_eq!(source.host(), Some("192.168.1.100"));

    let url_source = Source {
        name: "Studio".to_string(),
        address: SourceAddress::Url("http://camera.local:8080".to_string()),
    };
    assert_eq!(url_source.host(), url_source.ip_address());
    assert_eq!(url_source.host(), Some("camera.local"));
}

#[test]
fn test_source_matching_real_world_example() {
    let source = Source {
        name: "CAMERA1 (Chan1, 192.168.0.107)".to_string(),
        address: SourceAddress::Ip("192.168.0.107:5960".to_string()),
    };

    assert!(source.matches_host("192.168.0.107"));
    assert!(source.matches_host("192.168.0"));
    assert!(source.matches_host("CAMERA1"));
    assert!(source.matches_host("192.168.0.107"));
    assert_eq!(source.ip_address(), Some("192.168.0.107"));
    assert_eq!(source.host(), Some("192.168.0.107"));
    assert_eq!(source.address.port(), Some(5960));
}

#[test]
fn source_from_sdk_text_tells_urls_from_ips() {
    let url = Source::from_raw("A".to_string(), Some("http://cam:80".to_string()));
    assert!(matches!(url.address, SourceAddress::Url(ref u) if u == "http://cam:80"));
    let ip = Source::from_raw("B".to_string(), Some("10.0.0.1:5960".to_string()));
    assert!(matches!(ip.address, SourceAddress::Ip(ref a) if a == "10.0.0.1:5960"));
    let none = Source::from_raw("C".to_string(), None);
    assert!(matches!(none.address, SourceAddress::NoAddress));
}

#[test]
fn source_to_raw_builds_c_strings_and_rejects_nul() {
    let source = Source {
        name: "Cam".to_string(),
        address: SourceAddress::Ip("1.2.3.4:5".to_string()),
    };
    let raw = source.to_raw().unwrap();
    assert_eq!(raw.name, b"Cam\0".to_vec());
    assert_eq!(raw.ip_address, Some(b"1.2.3.4:5\0".to_vec()));
    assert_eq!(raw.url_address, None);

    let bad = Source {
        name: "Ca\0m".to_string(),
        address: SourceAddress::NoAddress,
    };
    assert!(matches!(bad.to_raw(), Err(Error::InvalidCString(2))));
}

#[test]
fn source_display_joins_name_and_address() {
    let source = Source {
        name: "LAPTOP (Camera 1)".to_string(),
        address: SourceAddress::Ip("192.168.1.100:5960".to_string()),
    };
    assert_eq!(source.to_display_string(), "LAPTOP (Camera 1)@192.168.1.100:5960");
    let bare = Source { name: "X".to_string(), address: SourceAddress::NoAddress };
    assert_eq!(bare.to_display_string(), "X");
}

#[test]
fn test_source_cache_creation() {
    let cache = SourceCache::new();
    assert!(cache.is_ok());

    let cache = cache.unwrap();
    assert_eq!(cache.len(), 0);
    assert!(cache.is_empty());
}

#[test]
fn test_source_cache_default() {
    let cache = SourceCache::default();
    assert_eq!(cache.len(), 0);
    assert!(cache.is_empty());
}

#[test]
fn test_source_cache_invalidation() {
    let mut cache = SourceCache::default();

    cache.invalidate("192.168.0.107");
    assert_eq!(cache.len(), 0);

    cache.clear();
    assert_eq!(cache.len(), 0);
    assert!(cache.is_empty());
}

#[test]
fn test_source_cache_len_and_is_empty() {
    let mut cache = SourceCache::default();

    assert_eq!(cache.len(), 0);
    assert!(cache.is_empty());

    cache.clear();
    assert_eq!(cache.len(), 0);
    assert!(cache.is_empty());
}

fn cam(name: &str, addr: &str) -> Source {
    Source { name: name.to_string(), address: SourceAddress::Ip(addr.to_string()) }
}

#[test]
fn source_cache_insert_get_invalidate() {
    let mut cache = SourceCache::default();
    cache.insert("10.0.0.1", cam("A", "10.0.0.1:5960"));
    cache.insert("10.0.0.2", cam("B", "10.0.0.2:5960"));
    assert_eq!(cache.len(), 2);
    assert_eq!(cache.get("10.0.0.1").unwrap().name, "A");
    cache.insert("10.0.0.1", cam("C", "10.0.0.1:5961"));
    assert_eq!(cache.len(), 2);
    assert_eq!(cache.get("10.0.0.1").unwrap().name, "C");
    cache.invalidate("10.0.0.1");
    assert!(cache.get("10.0.0.1").is_none());
    assert_eq!(cache.len(), 1);
    assert!(!cache.is_empty());
}

#[test]
fn find_by_host_discovers_once_and_caches() {
    let mut cache = SourceCache::default();
    let calls = std::cell::Cell::new(0);
    let discover = || {
        calls.set(calls.get() + 1);
        Ok(vec![cam("OTHER", "10.0.0.9:5960"), cam("CAMERA1", "192.168.0.107:5960")])
    };
    let found = cache.find_by_host("192.168.0.107", discover).unwrap();
    assert_eq!(found.name, "CAMERA1");
    assert_eq!(calls.get(), 1);

    let again = cache
        .find_by_host("192.168.0.107", || -> Result<Vec<Source>, Error> {
            panic!("a cached host must not be rediscovered")
        })
        .unwrap();
    assert_eq!(again.name, "CAMERA1");
    assert_eq!(cache.len(), 1);
}

#[test]
fn find_by_host_reports_no_match_and_keeps_cache() {
    let mut cache = SourceCache::default();
    let result = cache.find_by_host("10.1.1.1", || Ok(vec![cam("A", "10.0.0.1:5960")]));
    match result {
        Err(Error::NoSourcesFound { criteria }) => assert_eq!(criteria, "host: 10.1.1.1"),
        _ => panic!("expected NoSourcesFound"),
    }
    assert!(cache.is_empty());

    let failed = cache.find_by_host("10.1.1.1", || Err(Error::Timeout("t".to_string())));
    assert!(matches!(failed, Err(Error::Timeout(_))));
    assert!(cache.is_empty());
}

#[test]
fn select_source_takes_first_match() {
    let sources = vec![cam("A", "10.0.0.1:1"), cam("B", "10.0.0.1:2")];
    assert_eq!(select_source(&sources, "10.0.0.1").unwrap().name, "A");
}

#[test]
fn finder_options_builder_defaults() {
    let opts = FinderOptionsBuilder::new().build();
    assert!(opts.show_local_sources);
    assert!(opts.groups.is_none());
    let opts = FinderOptions::builder()
        .show_local_sources(false)
        .groups("Public,Studio")
        .extra_ips("192.168.1.0/24")
        .build();
    assert!(!opts.show_local_sources);
    assert_eq!(opts.groups.as_deref(), Some("Public,Studio"));
    assert_eq!(opts.extra_ips.as_deref(), Some("192.168.1.0/24"));
    assert!(!FinderOptions::default().show_local_sources);
}

#[test]
fn test_image_format_enum() {
    let png = ImageFormat::Png;
    let jpeg = ImageFormat::Jpeg(90);

    let png_copy = png;
    let jpeg_copy = jpeg;

    assert_eq!(png, png_copy);
    assert_eq!(jpeg, jpeg_copy);

    assert_ne!(png, jpeg);

    let jpeg_low = ImageFormat::Jpeg(50);
    let jpeg_high = ImageFormat::Jpeg(95);
    assert_ne!(jpeg_low, jpeg_high);
}

#[test]
fn test_line_stride_or_size_to_raw_uncompressed() {
    let stride = LineStrideOrSize::LineStrideBytes(7680);
    assert_eq!(stride.raw_value(), 7680);
}

#[test]
fn test_line_stride_or_size_to_raw_compressed() {
    let data_size = LineStrideOrSize::DataSizeBytes(1024000);
    assert_eq!(data_size.raw_value(), 1024000);
}

#[test]
fn test_line_stride_or_size_debug() {
    let stride = LineStrideOrSize::LineStrideBytes(7680);
    let debug_str = format!("{:?}", stride);
    assert!(debug_str.contains("LineStrideBytes"));
    assert!(debug_str.contains("7680"));

    let size = LineStrideOrSize::DataSizeBytes(1024000);
    let debug_str = format!("{:?}", size);
    assert!(debug_str.contains("DataSizeBytes"));
    assert!(debug_str.contains("1024000"));
}

#[test]
fn test_line_stride_or_size_equality() {
    let stride1 = LineStrideOrSize::LineStrideBytes(7680);
    let stride2 = LineStrideOrSize::LineStrideBytes(7680);
    let stride3 = LineStrideOrSize::LineStrideBytes(3840);

    assert_eq!(stride1, stride2);
    assert_ne!(stride1, stride3);

    let size1 = LineStrideOrSize::DataSizeBytes(1024);
    let size2 = LineStrideOrSize::DataSizeBytes(1024);
    let size3 = LineStrideOrSize::DataSizeBytes(2048);

    assert_eq!(size1, size2);
    assert_ne!(size1, size3);

    let stride = LineStrideOrSize::LineStrideBytes(1024);
    let size = LineStrideOrSize::DataSizeBytes(1024);
    assert_ne!(stride, size);
}

#[test]
fn test_video_frame_size_calculation_logic() {
    let correct_size = grafton_ndi::PixelFormat::BGRA.try_buffer_size(1920, 1080).unwrap();
    assert_eq!(correct_size, 1920 * 4 * 1080);
    assert!(correct_size < 10_000_000);
}

#[test]
fn finder_options_to_raw_builds_c_strings() {
    let options = FinderOptions::builder()
        .show_local_sources(true)
        .groups("Public,Studio")
        .extra_ips("10.0.0.5")
        .build();
    let raw = options.to_raw().unwrap();
    assert!(raw.show_local_sources);
    assert_eq!(raw.groups.unwrap(), b"Public,Studio\0".to_vec());
    assert_eq!(raw.extra_ips.unwrap(), b"10.0.0.5\0".to_vec());

    let plain = FinderOptions::builder().build().to_raw().unwrap();
    assert!(plain.show_local_sources);
    assert!(plain.groups.is_none());
    assert!(plain.extra_ips.is_none());
}

#[test]
fn finder_options_to_raw_reports_nul_position() {
    let bad_groups = FinderOptions::builder().groups("ab\0c").extra_ips("x\0").build();
    assert!(matches!(bad_groups.to_raw(), Err(Error::InvalidCString(2))));
    let bad_ips = FinderOptions::builder().extra_ips("1.2.3\0").build();
    assert!(matches!(bad_ips.to_raw(), Err(Error::InvalidCString(5))));
}

fn text_of(c_string: &[u8]) -> String {
    String::from_utf8(c_string[..c_string.len() - 1].to_vec()).unwrap()
}

fn address_parts(a: &SourceAddress) -> (&'static str, Option<String>) {
    match a {
        SourceAddress::NoAddress => ("none", None),
        SourceAddress::Url(u) => ("url", Some(u.clone())),
        SourceAddress::Ip(ip) => ("ip", Some(ip.clone())),
    }
}

#[test]
fn source_survives_the_sdk_form() {
    let sources = [
        Source { name: "CAM (A)".to_string(), address: SourceAddress::Ip("10.0.0.2:5961".to_string()) },
        Source { name: "HX".to_string(), address: SourceAddress::Url("ndi://host:5961/hx".to_string()) },
        Source { name: "Local".to_string(), address: SourceAddress::NoAddress },
    ];
    for source in sources {
        let raw = source.to_raw().unwrap();
        let address = raw.url_address.as_deref().or(raw.ip_address.as_deref()).map(text_of);
        let back = Source::from_raw(text_of(&raw.name), address);
        assert_eq!(back.name, source.name);
        assert_eq!(address_parts(&back.address), address_parts(&source.address));
    }

    let misleading = Source { name: "x".to_string(), address: SourceAddress::Ip("a://b".to_string()) };
    let raw = misleading.to_raw().unwrap();
    let back = Source::from_raw(text_of(&raw.name), raw.ip_address.as_deref().map(text_of));
    assert_eq!(address_parts(&back.address), ("url", Some("a://b".to_string())));
}
