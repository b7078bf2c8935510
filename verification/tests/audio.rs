use wispr_core::audio::{enumerate_devices, parse_avfoundation_devices, parse_device_line, resolve_selected_device};
use wispr_core::config::AppConfig;
use wispr_core::models::DeviceChoice;

fn device(node: &str, display: &str, fallback: &str) -> DeviceChoice {
    DeviceChoice {
        node_name: node.to_string(),
        display_name: display.to_string(),
        fallback_description: fallback.to_string(),
    }
}

#[test]
fn parses_avfoundation_audio_devices_after_log_prefix() {
    let stderr = r#"
[AVFoundation indev @ 0x111111111] AVFoundation video devices:
[AVFoundation indev @ 0x111111111] [0] FaceTime HD Camera
[AVFoundation indev @ 0x111111111] AVFoundation audio devices:
[AVFoundation indev @ 0x111111111] [0] MacBook Pro Microphone
[AVFoundation indev @ 0x111111111] [1] External USB Mic
"#;

    let devices = parse_avfoundation_devices(stderr);
    assert_eq!(devices.len(), 2);
    assert_eq!(devices[0].node_name, "0");
    assert_eq!(devices[0].display_name, "MacBook Pro Microphone");
    assert_eq!(devices[1].node_name, "1");
    assert_eq!(devices[1].fallback_description, "External USB Mic");
}

#[test]
fn device_line_splits_index_and_name() {
    let line: Vec<char> = "[indev @ 0x1] [3]  Studio Mic ".chars().collect();
    let (index, name) = parse_device_line(&line).expect("a device line");
    assert_eq!(index.iter().collect::<String>(), "3");
    assert_eq!(name.iter().collect::<String>(), "Studio Mic");
}

#[test]
fn device_line_without_bracketed_index_is_rejected() {
    let line: Vec<char> = "[indev @ 0x1] Studio Mic".chars().collect();
    assert!(parse_device_line(&line).is_none());
    let no_bracket: Vec<char> = "no brackets here".chars().collect();
    assert!(parse_device_line(&no_bracket).is_none());
}

#[test]
fn listing_skips_devices_with_empty_names_and_video_section() {
    let stderr = "x AVFoundation audio devices:\n[a] [0]\n[a] [1] Mic\nx AVFoundation video devices:\n[a] [2] Cam\n";
    let devices = parse_avfoundation_devices(stderr);
    assert_eq!(devices.len(), 1);
    assert_eq!(devices[0].node_name, "1");
    assert_eq!(devices[0].display_name, "Mic");
}

#[test]
fn enumerate_devices_decodes_ffmpeg_bytes() {
    let bytes = "[i] AVFoundation audio devices:\r\n[i] [0] Built-in Mic\r\n".as_bytes();
    let devices = enumerate_devices(bytes);
    assert_eq!(devices.len(), 1);
    assert_eq!(devices[0].node_name, "0");
    assert_eq!(devices[0].display_name, "Built-in Mic");
    assert_eq!(devices[0].fallback_description, "Built-in Mic");
}

#[test]
fn saved_device_is_found_by_node_name_first() {
    let mut config = AppConfig::default();
    config.selected_device = Some(device("usb", "Other", "Other"));
    let available = vec![device("a", "Other", "Other"), device("usb", "USB Mic", "USB")];
    let chosen = resolve_selected_device(&config, &available).expect("a device");
    assert_eq!(chosen.node_name, "usb");
    assert_eq!(chosen.display_name, "USB Mic");
}

#[test]
fn saved_device_falls_back_to_its_labels_then_first_device() {
    let mut config = AppConfig::default();
    config.selected_device = Some(device("gone", "Desk Mic", "Desk"));
    let available = vec![device("a", "Laptop", "Laptop"), device("b", "Other", "Desk")];
    assert_eq!(resolve_selected_device(&config, &available).unwrap().node_name, "b");

    config.selected_device = Some(device("gone", "Nothing", "Nothing"));
    assert_eq!(resolve_selected_device(&config, &available).unwrap().node_name, "a");
}

#[test]
fn no_saved_device_takes_the_first_and_empty_list_gives_none() {
    let config = AppConfig::default();
    let available = vec![device("a", "Laptop", "Laptop"), device("b", "Other", "Other")];
    assert_eq!(resolve_selected_device(&config, &available).unwrap().node_name, "a");
    assert!(resolve_selected_device(&config, &Vec::new()).is_none());
}
