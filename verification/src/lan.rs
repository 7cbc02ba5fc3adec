//! The Govee LAN API wire format and the validation done before a packet is sent.
//!
//! Devices listen on port 4001 (multicast `239.255.255.250`), answer scans on
//! port 4002 and take control commands on port 4003. Every message is the JSON
//! text `{"msg":{"cmd":"<cmd>","data":{...}}}` in UTF-8.
use vstd::prelude::*;
use vstd::string::*;
use vstd::utf8::encode_utf8;
use crate::error::GoveeError;
use crate::models::{Color, Command, Device, DeviceState, IpAddress};
use crate::text::{decimal, push_decimal};

verus! {

/// Multicast group the devices listen on for scans.
pub const MULTICAST_ADDR: [u8; 4] = [239, 255, 255, 250];

/// Port the devices listen on for scans.
pub const DISCOVERY_PORT: u16 = 4001;

/// Port this client listens on for scan and status answers.
pub const LISTEN_PORT: u16 = 4002;

/// Port the devices take control commands on.
pub const CONTROL_PORT: u16 = 4003;

/// The JSON envelope of every LAN message.
pub open spec fn message_json(cmd: Seq<char>, data: Seq<char>) -> Seq<char> {
    "{\"msg\":{\"cmd\":\""@ + cmd + "\",\"data\":"@ + data + "}}"@
}

/// The data object of `turn` and `brightness`.
pub open spec fn value_json(v: nat) -> Seq<char> {
    "{\"value\":"@ + decimal(v) + "}"@
}

/// The data object of `colorwc`.
pub open spec fn colorwc_json(c: Color, kelvin: u16) -> Seq<char> {
    "{\"color\":{\"r\":"@ + decimal(c.r as nat) + ",\"g\":"@ + decimal(c.g as nat) + ",\"b\":"@
        + decimal(c.b as nat) + "},\"colorTemInKelvin\":"@ + decimal(kelvin as nat) + "}"@
}

/// The `cmd` field of a command.
pub open spec fn command_name(c: Command) -> Seq<char> {
    match c {
        Command::TurnOn => "turn"@,
        Command::TurnOff => "turn"@,
        Command::SetBrightness(_) => "brightness"@,
        Command::SetColor(_) => "colorwc"@,
        Command::SetColorTemp(_) => "colorwc"@,
        Command::QueryState => "devStatus"@,
    }
}

/// The `data` field of a command. Setting a color sends temperature 0;
/// setting a temperature sends the color white, since some devices ignore a
/// temperature sent with the color black.
pub open spec fn command_data(c: Command) -> Seq<char> {
    match c {
        Command::TurnOn => value_json(1),
        Command::TurnOff => value_json(0),
        Command::SetBrightness(v) => value_json(v as nat),
        Command::SetColor(color) => colorwc_json(color, 0),
        Command::SetColorTemp(k) => colorwc_json(Color { r: 255, g: 255, b: 255 }, k),
        Command::QueryState => "{}"@,
    }
}

/// The JSON text of a command.
pub open spec fn command_json(c: Command) -> Seq<char> {
    message_json(command_name(c), command_data(c))
}

/// The JSON text of the discovery scan.
pub open spec fn scan_json() -> Seq<char> {
    message_json("scan"@, "{\"account_topic\":\"reserve\"}"@)
}

fn push_value_json(s: &mut String, v: u64)
    ensures
        final(s)@ == old(s)@ + value_json(v as nat),
{
    s.append("{\"value\":");
    push_decimal(s, v);
    s.append("}");
}

fn push_colorwc_json(s: &mut String, c: Color, kelvin: u16)
    ensures
        final(s)@ == old(s)@ + colorwc_json(c, kelvin),
{
    s.append("{\"color\":{\"r\":");
    push_decimal(s, c.r as u64);
    s.append(",\"g\":");
    push_decimal(s, c.g as u64);
    s.append(",\"b\":");
    push_decimal(s, c.b as u64);
    s.append("},\"colorTemInKelvin\":");
    push_decimal(s, kelvin as u64);
    s.append("}");
}

fn command_name_str(c: Command) -> (s: &'static str)
    ensures
        s@ == command_name(c),
{
    match c {
        Command::TurnOn => "turn",
        Command::TurnOff => "turn",
        Command::SetBrightness(_) => "brightness",
        Command::SetColor(_) => "colorwc",
        Command::SetColorTemp(_) => "colorwc",
        Command::QueryState => "devStatus",
    }
}

/// Encodes a command as the UTF-8 bytes of its JSON message.
pub fn encode_command(command: Command) -> (bytes: Vec<u8>)
    ensures
        bytes@ == encode_utf8(command_json(command)),
{
    let mut s = String::new();
    s.append("{\"msg\":{\"cmd\":\"");
    s.append(command_name_str(command));
    s.append("\",\"data\":");
    match command {
        Command::TurnOn => push_value_json(&mut s, 1),
        Command::TurnOff => push_value_json(&mut s, 0),
        Command::SetBrightness(v) => push_value_json(&mut s, v as u64),
        Command::SetColor(c) => push_colorwc_json(&mut s, c, 0),
        Command::SetColorTemp(k) => push_colorwc_json(&mut s, Color::white(), k),
        Command::QueryState => s.append("{}"),
    }
    s.append("}}");
    proof {
        assert(s@ =~= command_json(command));
    }
    s.as_str().as_bytes_vec()
}

/// Encodes the discovery scan as the UTF-8 bytes of its JSON message.
pub fn scan_message() -> (bytes: Vec<u8>)
    ensures
        bytes@ == encode_utf8(scan_json()),
{
    let mut s = String::new();
    s.append("{\"msg\":{\"cmd\":\"");
    s.append("scan");
    s.append("\",\"data\":");
    s.append("{\"account_topic\":\"reserve\"}");
    s.append("}}");
    proof {
        assert(s@ =~= scan_json());
    }
    s.as_str().as_bytes_vec()
}

/// A control packet ready to be sent: where it goes and what it holds.
pub struct Packet {
    pub ip: IpAddress,
    pub port: u16,
    pub payload: Vec<u8>,
}

/// The message of the error for a device with no known IP address.
pub open spec fn no_ip_message(mac: Seq<char>) -> Seq<char> {
    "device "@ + mac + " has no IP address"@
}

/// What sending `command` to `device` gives: the control packet for the
/// device's address, or `DeviceNotFound` when the device has no address.
pub open spec fn command_outcome(device: Device, command: Command, r: Result<Packet, GoveeError>) -> bool {
    match device.ip {
        None => r matches Err(GoveeError::DeviceNotFound(m)) && m@ == no_ip_message(device.mac@),
        Some(ip) => r matches Ok(p) && p.ip == ip && p.port == CONTROL_PORT && p.payload@
            == encode_utf8(command_json(command)),
    }
}

/// A brightness is accepted when it lies in 1–100.
pub open spec fn brightness_ok(v: u8) -> bool {
    1 <= v <= 100
}

/// A color temperature is accepted when it lies in 2000–9000 Kelvin.
pub open spec fn color_temp_ok(v: u16) -> bool {
    2000 <= v <= 9000
}

/// Checks a brightness: `Ok` in 1–100, otherwise `InvalidBrightness` with the value.
pub fn validate_brightness(v: u8) -> (r: Result<(), GoveeError>)
    ensures
        r is Ok <==> brightness_ok(v),
        !brightness_ok(v) ==> (r matches Err(GoveeError::InvalidBrightness { value }) && value == v),
{
    if v == 0 || v > 100 {
        return Err(GoveeError::InvalidBrightness { value: v });
    }
    Ok(())
}

/// Checks a color temperature: `Ok` in 2000–9000, otherwise `InvalidColorTemp` with the value.
pub fn validate_color_temp(v: u16) -> (r: Result<(), GoveeError>)
    ensures
        r is Ok <==> color_temp_ok(v),
        !color_temp_ok(v) ==> (r matches Err(GoveeError::InvalidColorTemp { value }) && value == v),
{
    if v < 2000 || v > 9000 {
        return Err(GoveeError::InvalidColorTemp { value: v });
    }
    Ok(())
}

/// Prepares the packet that sends `command` to `device`.
pub fn prepare_command(device: &Device, command: Command) -> (r: Result<Packet, GoveeError>)
    ensures
        command_outcome(*device, command, r),
{
    match device.ip {
        None => {
            let mut m = String::new();
            m.append("device ");
            m.append(device.mac.as_str());
            m.append(" has no IP address");
            proof {
                assert(m@ =~= no_ip_message(device.mac@));
            }
            Err(GoveeError::DeviceNotFound(m))
        },
        Some(ip) => Ok(Packet { ip, port: CONTROL_PORT, payload: encode_command(command) }),
    }
}

/// Prepares the packet that turns a device on or off.
pub fn prepare_set_power(device: &Device, on: bool) -> (r: Result<Packet, GoveeError>)
    ensures
        command_outcome(*device, if on { Command::TurnOn } else { Command::TurnOff }, r),
{
    prepare_command(device, if on { Command::TurnOn } else { Command::TurnOff })
}

/// Prepares the packet that sets the brightness; a brightness outside 1–100
/// is refused before anything else is looked at.
pub fn prepare_set_brightness(device: &Device, brightness: u8) -> (r: Result<Packet, GoveeError>)
    ensures
        brightness_ok(brightness) ==> command_outcome(*device, Command::SetBrightness(brightness), r),
        !brightness_ok(brightness) ==> (r matches Err(GoveeError::InvalidBrightness { value })
            && value == brightness),
{
    match validate_brightness(brightness) {
        Err(e) => Err(e),
        Ok(()) => prepare_command(device, Command::SetBrightness(brightness)),
    }
}

/// Prepares the packet that sets an RGB color.
pub fn prepare_set_color(device: &Device, color: Color) -> (r: Result<Packet, GoveeError>)
    ensures
        command_outcome(*device, Command::SetColor(color), r),
{
    prepare_command(device, Command::SetColor(color))
}

/// Prepares the packet that sets a color temperature; a temperature outside
/// 2000–9000 K is refused before anything else is looked at.
pub fn prepare_set_color_temp(device: &Device, kelvin: u16) -> (r: Result<Packet, GoveeError>)
    ensures
        color_temp_ok(kelvin) ==> command_outcome(*device, Command::SetColorTemp(kelvin), r),
        !color_temp_ok(kelvin) ==> (r matches Err(GoveeError::InvalidColorTemp { value })
            && value == kelvin),
{
    match validate_color_temp(kelvin) {
        Err(e) => Err(e),
        Ok(()) => prepare_command(device, Command::SetColorTemp(kelvin)),
    }
}

/// The device state a `devStatus` answer describes.
pub open spec fn status_state(on_off: u8, brightness: u8, color: Color, kelvin: u16) -> DeviceState {
    DeviceState { on: on_off != 0, brightness, color, color_temp_kelvin: kelvin }
}

/// Builds the device state from the fields of a `devStatus` answer.
pub fn state_from_status(on_off: u8, brightness: u8, r: u8, g: u8, b: u8, kelvin: u16) -> (s: DeviceState)
    ensures
        s == status_state(on_off, brightness, Color { r, g, b }, kelvin),
{
    DeviceState { on: on_off != 0, brightness, color: Color::new(r, g, b), color_temp_kelvin: kelvin }
}

/// Builds a device from a scan answer. The address the answer names is used
/// when it could be read; otherwise the address the answer came from.
pub fn device_from_scan(
    named_ip: Option<IpAddress>,
    source: IpAddress,
    mac: &str,
    sku: &str,
    name: Option<String>,
) -> (d: Device)
    ensures
        d.mac@ == mac@,
        d.sku@ == sku@,
        d.name == name,
        d.ip == Some(
            match named_ip {
                Some(ip) => ip,
                None => source,
            },
        ),
{
    let ip = match named_ip {
        Some(ip) => ip,
        None => source,
    };
    let mut device = Device::new(mac, sku);
    device.ip = Some(ip);
    device.name = name;
    device
}

} // verus!
