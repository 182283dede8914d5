use rustyroom::audio::{arrange_devices, AudioDeviceInfo};

fn names(devices: &[AudioDeviceInfo]) -> Vec<(String, bool)> {
    devices.iter().map(|d| (d.name.clone(), d.is_default)).collect()
}

#[test]
fn devices_default_first_sorted_and_deduplicated() {
    let raw = vec![
        "pulse".to_string(),
        "hw:0".to_string(),
        "default".to_string(),
        "null".to_string(),
        " Mic ".to_string(),
        "hw:0".to_string(),
    ];
    let devices = arrange_devices(raw, Some("hw:0".to_string()), true);
    assert_eq!(
        names(&devices),
        vec![
            ("hw:0".to_string(), true),
            ("Mic".to_string(), false),
            ("PulseAudio".to_string(), false),
            ("System Default".to_string(), false),
        ]
    );
    assert!(devices.iter().all(|d| d.is_input));
}

#[test]
fn backend_devices_come_after_hardware() {
    let raw = vec!["pulse".to_string(), "hw:CARD=PCH,DEV=0".to_string()];
    let devices = arrange_devices(raw, None, true);
    assert_eq!(
        names(&devices),
        vec![("hw:CARD=PCH,DEV=0".to_string(), false), ("PulseAudio".to_string(), false)]
    );
    let raw = vec!["jack".to_string(), "zeta".to_string(), "alpha".to_string(), "default".to_string()];
    let devices = arrange_devices(raw, None, false);
    assert_eq!(
        names(&devices),
        vec![
            ("alpha".to_string(), false),
            ("zeta".to_string(), false),
            ("JACK Audio".to_string(), false),
            ("System Default".to_string(), false),
        ]
    );
    assert!(devices.iter().all(|d| !d.is_input));
}

#[test]
fn no_devices_gives_placeholder() {
    let devices = arrange_devices(vec!["null".to_string(), "   ".to_string()], None, false);
    assert_eq!(devices.len(), 1);
    assert_eq!(devices[0].name, "System Default");
    assert!(devices[0].is_default);
    assert!(!devices[0].is_input);
}
