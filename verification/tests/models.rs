use govee::models::{Color, Command, Device, DeviceState, IpAddress};

#[test]
fn color_display() {
    assert_eq!(Color::red().to_hex_string(), "#FF0000");
    assert_eq!(Color::new(0, 128, 255).to_hex_string(), "#0080FF");
}

#[test]
fn color_constructors() {
    assert_eq!(Color::green(), Color::new(0, 255, 0));
    assert_eq!(Color::blue(), Color::new(0, 0, 255));
    assert_eq!(Color::white(), Color::new(255, 255, 255));
    assert_eq!(Color::off(), Color::new(0, 0, 0));
    let c = Color::new(1, 2, 3);
    assert_eq!((c.r, c.g, c.b), (1, 2, 3));
}

#[test]
fn color_hex_string_small_and_large_bytes() {
    assert_eq!(Color::new(0, 0, 0).to_hex_string(), "#000000");
    assert_eq!(Color::new(10, 171, 9).to_hex_string(), "#0AAB09");
    assert_eq!(Color::white().to_hex_string(), "#FFFFFF");
}

#[test]
fn device_display_name_falls_back_to_sku() {
    let d = Device::new("AA:BB:CC:DD", "H6072");
    assert_eq!(d.display_name(), "H6072");
}

#[test]
fn device_display_name_uses_name_when_set() {
    let mut d = Device::new("AA:BB:CC:DD", "H6072");
    d.name = Some("Living Room".to_string());
    assert_eq!(d.display_name(), "Living Room");
}

#[test]
fn device_new_has_no_name_or_ip() {
    let d = Device::new("AA:BB", "H6072");
    assert_eq!(d.mac, "AA:BB");
    assert_eq!(d.sku, "H6072");
    assert!(d.name.is_none());
    assert!(d.ip.is_none());
}

#[test]
fn device_duplicate_keeps_every_field() {
    let mut d = Device::new("AA:BB", "H6072");
    d.name = Some("Desk".to_string());
    d.ip = Some(IpAddress::V4([192, 168, 1, 7]));
    assert_eq!(d.duplicate(), d);
}

#[test]
fn device_state_default_is_off() {
    let state = DeviceState::default();
    assert!(!state.on);
    assert_eq!(state.brightness, 100);
}

#[test]
fn device_state_default_is_white_rgb_mode() {
    let state = DeviceState::default();
    assert_eq!(state.color, Color::white());
    assert_eq!(state.color_temp_kelvin, 0);
}

#[test]
fn commands_compare_by_value() {
    assert_eq!(Command::SetBrightness(5), Command::SetBrightness(5));
    assert_ne!(Command::TurnOn, Command::TurnOff);
}
