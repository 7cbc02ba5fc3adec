//! The Govee cloud API (`https://developer-api.govee.com`): how its answers
//! are judged and decoded, and what each control request carries.
//! The requests themselves are made by the HTTP client around this module.
use vstd::prelude::*;
use vstd::string::*;
use crate::error::GoveeError;
use crate::lan::{brightness_ok, color_temp_ok, validate_brightness, validate_color_temp};
use crate::models::{Color, Device, DeviceState};

verus! {

/// The base URL of the cloud API.
pub open spec fn base_url() -> Seq<char> {
    "https://developer-api.govee.com"@
}

/// The reason phrase the `http` crate's `StatusCode::canonical_reason` gives for a status code.
pub uninterp spec fn canonical_reason_text(code: u16) -> Option<Seq<char>>;

/// Calls `reqwest::StatusCode::from_u16` and then `StatusCode::canonical_reason`:
/// the standard reason phrase of a status code, named by `canonical_reason_text`.
/// A code that is no valid status code has no phrase.
#[verifier::external_body]
fn canonical_reason(code: u16) -> (r: Option<&'static str>)
    ensures
        match r {
            Some(t) => canonical_reason_text(code) == Some(t@),
            None => canonical_reason_text(code) is None,
        },
{
    match reqwest::StatusCode::from_u16(code) {
        Ok(status) => status.canonical_reason(),
        Err(_) => None,
    }
}

/// A status code in 200–299 reports success.
pub open spec fn is_success(code: u16) -> bool {
    200 <= code < 300
}

/// The message of the error for status 429.
pub open spec fn rate_limit_message() -> Seq<char> {
    "rate limit exceeded (10,000 req/24h)"@
}

/// The message of the error for any other failing status: its reason phrase, or `unknown`.
pub open spec fn failure_message(code: u16) -> Seq<char> {
    match canonical_reason_text(code) {
        Some(t) => t,
        None => "unknown"@,
    }
}

/// Judges the status code of an answer: `Ok` for success (200–299); status
/// 429 is the rate limit; any other status is an API error with its reason phrase.
pub fn check_status(code: u16) -> (r: Result<(), GoveeError>)
    ensures
        is_success(code) ==> r is Ok,
        code == 429 ==> (r matches Err(GoveeError::ApiError { status, message }) && status == 429
            && message@ == rate_limit_message()),
        code != 429 && !is_success(code) ==> (r matches Err(GoveeError::ApiError { status, message })
            && status == code && message@ == failure_message(code)),
{
    if code == 429 {
        return Err(
            GoveeError::ApiError {
                status: 429,
                message: String::from_str("rate limit exceeded (10,000 req/24h)"),
            },
        );
    }
    if !(200 <= code && code < 300) {
        let message = match canonical_reason(code) {
            Some(t) => String::from_str(t),
            None => String::from_str("unknown"),
        };
        return Err(GoveeError::ApiError { status: code, message });
    }
    Ok(())
}

// ── Device list ──────────────────────────────────────────────────────────────

/// One device as the device list reports it.
pub struct DeviceDto {
    /// MAC address.
    pub device: String,
    /// SKU.
    pub model: String,
    pub device_name: String,
    pub controllable: bool,
}

/// The device a listed entry describes: its name is the listed name, and it has no IP address.
pub open spec fn dto_device(d: DeviceDto) -> Device {
    Device { mac: d.device, sku: d.model, name: Some(d.device_name), ip: None }
}

/// The controllable devices of a device list, in list order.
pub open spec fn listed_devices(dtos: Seq<DeviceDto>) -> Seq<Device>
    decreases dtos.len(),
{
    if dtos.len() == 0 {
        seq![]
    } else {
        let rest = listed_devices(dtos.drop_last());
        if dtos.last().controllable {
            rest.push(dto_device(dtos.last()))
        } else {
            rest
        }
    }
}

/// Keeps the controllable devices of a device list.
pub fn controllable_devices(dtos: Vec<DeviceDto>) -> (devices: Vec<Device>)
    ensures
        devices@ == listed_devices(dtos@),
{
    let ghost all = dtos@;
    let mut rest = dtos;
    let total = rest.len();
    let mut devices: Vec<Device> = Vec::new();
    let mut i: usize = 0;
    while rest.len() > 0
        invariant
            i <= all.len(),
            all.len() == total,
            rest@ == all.subrange(i as int, all.len() as int),
            devices@ == listed_devices(all.subrange(0, i as int)),
        decreases rest@.len(),
    {
        let d = rest.remove(0);
        proof {
            assert(all.subrange(0, i + 1).drop_last() =~= all.subrange(0, i as int));
            assert(all[i as int] == d);
        }
        if d.controllable {
            devices.push(Device { mac: d.device, sku: d.model, name: Some(d.device_name), ip: None });
        }
        i = i + 1;
        proof {
            assert(rest@ =~= all.subrange(i as int, all.len() as int));
        }
    }
    proof {
        assert(all.subrange(0, all.len() as int) =~= all);
    }
    devices
}

// ── Device state ─────────────────────────────────────────────────────────────

/// One entry of the `properties` list of a state answer: for each key the
/// decoder looks for, whether the entry has it, and its value read as an
/// unsigned integer where it is one.
pub struct StateProperty {
    pub power_switch: Option<Option<u64>>,
    pub brightness: Option<Option<u64>>,
    /// The `r`, `g`, `b` members of a `color` entry.
    pub color: Option<(Option<u64>, Option<u64>, Option<u64>)>,
    pub color_tem_in_kelvin: Option<Option<u64>>,
}

pub open spec fn or_default(v: Option<u64>, d: u64) -> u64 {
    match v {
        Some(x) => x,
        None => d,
    }
}

/// How one property entry changes the state. Only the first of
/// `powerSwitch`, `brightness`, `color`, `colorTemInKelvin` that the entry
/// holds counts. A power value other than 0 means on (a missing number means
/// off); brightness defaults to 100 and temperature to 0; numbers are cut to
/// the field's width as `as` casts do; a color counts only with all three channels.
pub open spec fn apply_property(s: DeviceState, p: StateProperty) -> DeviceState {
    match p.power_switch {
        Some(v) => DeviceState { on: or_default(v, 0) != 0, ..s },
        None => match p.brightness {
            Some(v) => DeviceState { brightness: (or_default(v, 100) % 256) as u8, ..s },
            None => match p.color {
                Some((Some(r), Some(g), Some(b))) => DeviceState {
                    color: Color { r: (r % 256) as u8, g: (g % 256) as u8, b: (b % 256) as u8 },
                    ..s
                },
                Some(_) => s,
                None => match p.color_tem_in_kelvin {
                    Some(v) => DeviceState { color_temp_kelvin: (or_default(v, 0) % 65536) as u16, ..s },
                    None => s,
                },
            },
        },
    }
}

/// The state after the property entries, taken in order from `s`.
pub open spec fn apply_properties(s: DeviceState, props: Seq<StateProperty>) -> DeviceState
    decreases props.len(),
{
    if props.len() == 0 {
        s
    } else {
        apply_property(apply_properties(s, props.drop_last()), props.last())
    }
}

/// How one state property decodes: a `powerSwitch` number means on exactly
/// when it is not 0, and a `powerSwitch` that is no number means off; a
/// `brightness` number that fits a byte is the brightness; a `color` with
/// all three channels fitting a byte is the color; a `colorTemInKelvin`
/// number that fits is the temperature. Nothing else of the state changes.
pub proof fn property_decoding(s: DeviceState, p: StateProperty)
    ensures
        p.power_switch matches Some(Some(n)) ==> apply_property(s, p) == (DeviceState { on: n != 0, ..s }),
        p.power_switch matches Some(None) ==> apply_property(s, p) == (DeviceState { on: false, ..s }),
        p.power_switch is None ==> (p.brightness matches Some(Some(n)) ==> (n < 256 ==> apply_property(s, p)
            == (DeviceState { brightness: n as u8, ..s }))),
        p.power_switch is None && p.brightness is None ==> (p.color matches Some((Some(r), Some(g), Some(b)))
            ==> (r < 256 && g < 256 && b < 256 ==> apply_property(s, p) == (DeviceState {
            color: Color { r: r as u8, g: g as u8, b: b as u8 },
            ..s
        }))),
        p.power_switch is None && p.brightness is None && p.color is None ==> (p.color_tem_in_kelvin matches Some(
            Some(n),
        ) ==> (n < 65536 ==> apply_property(s, p) == (DeviceState { color_temp_kelvin: n as u16, ..s }))),
{
}

fn unwrap_or_u64(v: Option<u64>, d: u64) -> (x: u64)
    ensures
        x == or_default(v, d),
{
    match v {
        Some(x) => x,
        None => d,
    }
}

fn apply_one(s: DeviceState, p: &StateProperty) -> (r: DeviceState)
    ensures
        r == apply_property(s, *p),
{
    let mut s = s;
    match p.power_switch {
        Some(v) => {
            s.on = unwrap_or_u64(v, 0) != 0;
        },
        None => match p.brightness {
            Some(v) => {
                s.brightness = (unwrap_or_u64(v, 100) % 256) as u8;
            },
            None => match p.color {
                Some((Some(r), Some(g), Some(b))) => {
                    s.color = Color::new((r % 256) as u8, (g % 256) as u8, (b % 256) as u8);
                },
                Some(_) => {},
                None => match p.color_tem_in_kelvin {
                    Some(v) => {
                        s.color_temp_kelvin = (unwrap_or_u64(v, 0) % 65536) as u16;
                    },
                    None => {},
                },
            },
        },
    }
    s
}

/// Decodes the state of a device from the property entries of a state
/// answer, starting from the default state.
pub fn state_from_properties(props: &Vec<StateProperty>) -> (s: DeviceState)
    ensures
        s == apply_properties(DeviceState::initial(), props@),
{
    let mut s = DeviceState::default();
    let mut i: usize = 0;
    while i < props.len()
        invariant
            i <= props@.len(),
            s == apply_properties(DeviceState::initial(), props@.subrange(0, i as int)),
        decreases props@.len() - i,
    {
        proof {
            assert(props@.subrange(0, i + 1).drop_last() =~= props@.subrange(0, i as int));
        }
        s = apply_one(s, &props[i]);
        i = i + 1;
    }
    proof {
        assert(props@.subrange(0, props@.len() as int) =~= props@);
    }
    s
}

// ── Control requests ─────────────────────────────────────────────────────────

/// The value of a control command.
pub enum ControlValue {
    Text(String),
    Number(u64),
    Rgb(Color),
}

/// A control command: its name and value.
pub struct ControlCmd {
    pub name: String,
    pub value: ControlValue,
}

/// The command that turns a device on (`"on"`) or off (`"off"`).
pub fn power_control(on: bool) -> (c: ControlCmd)
    ensures
        c.name@ == "turn"@,
        c.value matches ControlValue::Text(t) && t@ == (if on {
            "on"@
        } else {
            "off"@
        }),
{
    let value = if on {
        String::from_str("on")
    } else {
        String::from_str("off")
    };
    ControlCmd { name: String::from_str("turn"), value: ControlValue::Text(value) }
}

/// The command that sets the brightness; a brightness outside 1–100 is refused.
pub fn brightness_control(brightness: u8) -> (r: Result<ControlCmd, GoveeError>)
    ensures
        brightness_ok(brightness) ==> (r matches Ok(c) && c.name@ == "brightness"@
            && c.value == ControlValue::Number(brightness as u64)),
        !brightness_ok(brightness) ==> (r matches Err(GoveeError::InvalidBrightness { value })
            && value == brightness),
{
    match validate_brightness(brightness) {
        Err(e) => Err(e),
        Ok(()) => Ok(
            ControlCmd {
                name: String::from_str("brightness"),
                value: ControlValue::Number(brightness as u64),
            },
        ),
    }
}

/// The command that sets an RGB color.
pub fn color_control(color: Color) -> (c: ControlCmd)
    ensures
        c.name@ == "color"@,
        c.value == ControlValue::Rgb(color),
{
    ControlCmd { name: String::from_str("color"), value: ControlValue::Rgb(color) }
}

/// The command that sets a color temperature; a temperature outside 2000–9000 K is refused.
pub fn color_temp_control(kelvin: u16) -> (r: Result<ControlCmd, GoveeError>)
    ensures
        color_temp_ok(kelvin) ==> (r matches Ok(c) && c.name@ == "colorTem"@ && c.value
            == ControlValue::Number(kelvin as u64)),
        !color_temp_ok(kelvin) ==> (r matches Err(GoveeError::InvalidColorTemp { value })
            && value == kelvin),
{
    match validate_color_temp(kelvin) {
        Err(e) => Err(e),
        Ok(()) => Ok(
            ControlCmd { name: String::from_str("colorTem"), value: ControlValue::Number(kelvin as u64) },
        ),
    }
}

} // verus!
