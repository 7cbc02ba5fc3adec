use govee::error::GoveeError;
use govee::lan::{
    device_from_scan, encode_command, prepare_command, prepare_set_brightness,
    prepare_set_color, prepare_set_color_temp, prepare_set_power, scan_message,
    state_from_status, validate_brightness, validate_color_temp, CONTROL_PORT,
    DISCOVERY_PORT, LISTEN_PORT, MULTICAST_ADDR,
};
use govee::models::{Color, Command, Device, IpAddress};
use serde_json::Value;

fn decode(bytes: &[u8]) -> Value {
    serde_json::from_slice(bytes).unwrap()
}

fn encode(command: Command) -> Vec<u8> {
    encode_command(command)
}

#[test]
fn encode_turn_on() {
    let v = decode(&encode(Command::TurnOn));
    assert_eq!(v["msg"]["cmd"], "turn");
    assert_eq!(v["msg"]["data"]["value"], 1);
}

#[test]
fn encode_turn_off() {
    let v = decode(&encode(Command::TurnOff));
    assert_eq!(v["msg"]["data"]["value"], 0);
}

#[test]
fn encode_brightness() {
    let v = decode(&encode(Command::SetBrightness(75)));
    assert_eq!(v["msg"]["cmd"], "brightness");
    assert_eq!(v["msg"]["data"]["value"], 75);
}

#[test]
fn encode_color() {
    let v = decode(&encode(Command::SetColor(Color::new(255, 128, 0))));
    assert_eq!(v["msg"]["cmd"], "colorwc");
    assert_eq!(v["msg"]["data"]["color"]["r"], 255);
    assert_eq!(v["msg"]["data"]["color"]["g"], 128);
    assert_eq!(v["msg"]["data"]["color"]["b"], 0);
    assert_eq!(v["msg"]["data"]["colorTemInKelvin"], 0);
}

#[test]
fn encode_color_temp() {
    let v = decode(&encode(Command::SetColorTemp(4000)));
    assert_eq!(v["msg"]["cmd"], "colorwc");
    assert_eq!(v["msg"]["data"]["colorTemInKelvin"], 4000);
}

#[test]
fn encode_query_state() {
    let v = decode(&encode(Command::QueryState));
    assert_eq!(v["msg"]["cmd"], "devStatus");
}

#[test]
fn encode_exact_texts() {
    let text = |c| String::from_utf8(encode_command(c)).unwrap();
    assert_eq!(text(Command::TurnOn), r#"{"msg":{"cmd":"turn","data":{"value":1}}}"#);
    assert_eq!(text(Command::SetBrightness(100)), r#"{"msg":{"cmd":"brightness","data":{"value":100}}}"#);
    assert_eq!(
        text(Command::SetColor(Color::new(9, 10, 200))),
        r#"{"msg":{"cmd":"colorwc","data":{"color":{"r":9,"g":10,"b":200},"colorTemInKelvin":0}}}"#
    );
    assert_eq!(text(Command::QueryState), r#"{"msg":{"cmd":"devStatus","data":{}}}"#);
}

#[test]
fn encode_color_temp_sends_white() {
    let v = decode(&encode(Command::SetColorTemp(2700)));
    assert_eq!(v["msg"]["data"]["color"]["r"], 255);
    assert_eq!(v["msg"]["data"]["color"]["g"], 255);
    assert_eq!(v["msg"]["data"]["color"]["b"], 255);
    assert_eq!(v["msg"]["data"]["colorTemInKelvin"], 2700);
}

#[test]
fn scan_message_text() {
    let text = String::from_utf8(scan_message()).unwrap();
    assert_eq!(text, r#"{"msg":{"cmd":"scan","data":{"account_topic":"reserve"}}}"#);
    let v = decode(&scan_message());
    assert_eq!(v["msg"]["data"]["account_topic"], "reserve");
}

#[test]
fn ports_and_group() {
    assert_eq!(MULTICAST_ADDR, [239, 255, 255, 250]);
    assert_eq!((DISCOVERY_PORT, LISTEN_PORT, CONTROL_PORT), (4001, 4002, 4003));
}

fn device_at(ip: IpAddress) -> Device {
    let mut d = Device::new("AA:BB:CC", "H6072");
    d.ip = Some(ip);
    d
}

#[test]
fn prepare_command_targets_control_port() {
    let d = device_at(IpAddress::V4([10, 0, 0, 5]));
    let p = prepare_command(&d, Command::TurnOff).unwrap();
    assert_eq!(p.ip, IpAddress::V4([10, 0, 0, 5]));
    assert_eq!(p.port, 4003);
    assert_eq!(p.payload, encode_command(Command::TurnOff));
}

#[test]
fn prepare_command_without_ip_is_device_not_found() {
    let d = Device::new("AA:BB:CC", "H6072");
    match prepare_command(&d, Command::TurnOn) {
        Err(GoveeError::DeviceNotFound(m)) => assert_eq!(m, "device AA:BB:CC has no IP address"),
        _ => panic!("expected DeviceNotFound"),
    }
}

#[test]
fn prepare_set_power_and_color() {
    let d = device_at(IpAddress::V4([10, 0, 0, 5]));
    assert_eq!(prepare_set_power(&d, true).unwrap().payload, encode_command(Command::TurnOn));
    assert_eq!(prepare_set_power(&d, false).unwrap().payload, encode_command(Command::TurnOff));
    let c = Color::new(1, 2, 3);
    assert_eq!(prepare_set_color(&d, c).unwrap().payload, encode_command(Command::SetColor(c)));
}

#[test]
fn prepare_set_brightness_checks_range_first() {
    let no_ip = Device::new("AA", "H6072");
    assert!(matches!(
        prepare_set_brightness(&no_ip, 0),
        Err(GoveeError::InvalidBrightness { value: 0 })
    ));
    assert!(matches!(prepare_set_brightness(&no_ip, 50), Err(GoveeError::DeviceNotFound(_))));
    let d = device_at(IpAddress::V4([1, 2, 3, 4]));
    assert!(matches!(
        prepare_set_brightness(&d, 101),
        Err(GoveeError::InvalidBrightness { value: 101 })
    ));
    assert_eq!(
        prepare_set_brightness(&d, 1).unwrap().payload,
        encode_command(Command::SetBrightness(1))
    );
}

#[test]
fn prepare_set_color_temp_checks_range_first() {
    let d = device_at(IpAddress::V4([1, 2, 3, 4]));
    assert!(matches!(
        prepare_set_color_temp(&d, 1999),
        Err(GoveeError::InvalidColorTemp { value: 1999 })
    ));
    assert!(matches!(
        prepare_set_color_temp(&d, 9001),
        Err(GoveeError::InvalidColorTemp { value: 9001 })
    ));
    assert_eq!(
        prepare_set_color_temp(&d, 9000).unwrap().payload,
        encode_command(Command::SetColorTemp(9000))
    );
}

#[test]
fn invalid_brightness_rejected() {
    assert!(matches!(
        validate_brightness(0),
        Err(GoveeError::InvalidBrightness { value: 0 })
    ));
    assert!(matches!(
        validate_brightness(101),
        Err(GoveeError::InvalidBrightness { value: 101 })
    ));
    assert!(validate_brightness(1).is_ok());
    assert!(validate_brightness(100).is_ok());
}

#[test]
fn invalid_color_temp_rejected() {
    assert!(matches!(
        validate_color_temp(1999),
        Err(GoveeError::InvalidColorTemp { value: 1999 })
    ));
    assert!(matches!(
        validate_color_temp(9001),
        Err(GoveeError::InvalidColorTemp { value: 9001 })
    ));
    assert!(validate_color_temp(2000).is_ok());
    assert!(validate_color_temp(9000).is_ok());
}

#[test]
fn status_answer_to_state() {
    let s = state_from_status(1, 40, 1, 2, 3, 0);
    assert!(s.on);
    assert_eq!(s.brightness, 40);
    assert_eq!(s.color, Color::new(1, 2, 3));
    assert_eq!(s.color_temp_kelvin, 0);
    assert!(!state_from_status(0, 40, 1, 2, 3, 5000).on);
    assert!(state_from_status(7, 40, 1, 2, 3, 5000).on);
}

#[test]
fn scan_answer_to_device() {
    let src = IpAddress::V4([192, 168, 0, 9]);
    let named = IpAddress::V4([192, 168, 0, 10]);
    let d = device_from_scan(Some(named), src, "AA:01", "H6072", Some("Lamp".to_string()));
    assert_eq!(d.ip, Some(named));
    assert_eq!(d.mac, "AA:01");
    assert_eq!(d.sku, "H6072");
    assert_eq!(d.name.as_deref(), Some("Lamp"));
    let d = device_from_scan(None, src, "AA:01", "H6072", None);
    assert_eq!(d.ip, Some(src));
    assert_eq!(d.display_name(), "H6072");
}
