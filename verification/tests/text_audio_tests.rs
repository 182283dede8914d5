use rustyroom::audio::{friendly_device_name, is_hardware_device, FrameCollector};
use rustyroom::text::{decimal_string, join_from, parse_u16, split_words};

#[test]
fn test_frame_collector() {
    let mut collector = FrameCollector::new(960);

    // Add partial frame
    collector.push_samples(&[0.0f32; 500]);
    assert!(collector.pop_frame().is_none());
    assert_eq!(collector.pending(), 500);

    // Add remaining samples
    collector.push_samples(&[0.0f32; 500]);
    let frame = collector.pop_frame().unwrap();
    assert_eq!(frame.len(), 960);
    assert_eq!(collector.pending(), 40);
}

#[test]
fn frames_keep_sample_order() {
    let mut collector = FrameCollector::new(3);
    collector.push_samples(&[1u8, 2, 3, 4]);
    assert_eq!(collector.pop_frame(), Some(vec![1, 2, 3]));
    assert_eq!(collector.pending(), 1);
    collector.clear();
    assert_eq!(collector.pending(), 0);
    assert_eq!(collector.pop_frame(), None);
}

#[test]
fn device_names() {
    assert_eq!(friendly_device_name("default"), "System Default");
    assert_eq!(friendly_device_name("pipewire"), "PipeWire (System Audio)");
    assert_eq!(friendly_device_name("pulse"), "PulseAudio");
    assert_eq!(friendly_device_name("jack"), "JACK Audio");
    assert_eq!(friendly_device_name("null"), "");
    assert_eq!(friendly_device_name("   "), "");
    assert_eq!(friendly_device_name("  hw:CARD=PCH,DEV=0 "), "hw:CARD=PCH,DEV=0");
    assert!(!is_hardware_device("pulse"));
    assert!(!is_hardware_device("null"));
    assert!(is_hardware_device("hw:CARD=PCH,DEV=0"));
    assert!(is_hardware_device("System Default"));
}

#[test]
fn numbers_read_like_str_parse() {
    assert_eq!(parse_u16("42"), Some(42));
    assert_eq!(parse_u16("+7"), Some(7));
    assert_eq!(parse_u16("0065535"), Some(65535));
    assert_eq!(parse_u16("65536"), None);
    assert_eq!(parse_u16(""), None);
    assert_eq!(parse_u16("+"), None);
    assert_eq!(parse_u16("-1"), None);
    assert_eq!(parse_u16("12a"), None);
    for s in ["0", "9", "123", "+0", "99999", "x", " 1"] {
        assert_eq!(parse_u16(s), s.parse::<u16>().ok(), "{}", s);
    }
}

#[test]
fn decimal_reads_back() {
    for n in [0u16, 7, 10, 255, 4096, 65535] {
        assert_eq!(parse_u16(&decimal_string(n as u64)), Some(n));
    }
    assert_eq!(decimal_string(1234567890), "1234567890");
}

#[test]
fn words_like_split_whitespace() {
    for s in ["", "  ", "/join 12", "  /server  my   name\twith\u{3000}space ", "a\nb"] {
        let expected: Vec<String> = s.split_whitespace().map(|w| w.to_string()).collect();
        assert_eq!(split_words(s), expected, "{:?}", s);
    }
    let ws = split_words("/msg 3 hello   there world");
    assert_eq!(join_from(&ws, 2), "hello there world");
    assert_eq!(join_from(&ws, 5), "");
}
