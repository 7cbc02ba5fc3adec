//! Colors, devices, device state and the commands a device understands.
use vstd::prelude::*;
use vstd::string::*;
use crate::text::{hex_byte, push_hex_byte};

verus! {

/// RGB color value.
#[derive(Debug, Clone, Copy, PartialEq, Eq, Structural)]
pub struct Color {
    pub r: u8,
    pub g: u8,
    pub b: u8,
}

impl Color {
    pub fn new(r: u8, g: u8, b: u8) -> (c: Color)
        ensures
            c == (Color { r, g, b }),
    {
        Color { r, g, b }
    }

    pub fn red() -> (c: Color)
        ensures
            c == (Color { r: 255, g: 0, b: 0 }),
    {
        Self::new(255, 0, 0)
    }

    pub fn green() -> (c: Color)
        ensures
            c == (Color { r: 0, g: 255, b: 0 }),
    {
        Self::new(0, 255, 0)
    }

    pub fn blue() -> (c: Color)
        ensures
            c == (Color { r: 0, g: 0, b: 255 }),
    {
        Self::new(0, 0, 255)
    }

    pub fn white() -> (c: Color)
        ensures
            c == (Color { r: 255, g: 255, b: 255 }),
    {
        Self::new(255, 255, 255)
    }

    pub fn off() -> (c: Color)
        ensures
            c == (Color { r: 0, g: 0, b: 0 }),
    {
        Self::new(0, 0, 0)
    }

    /// The color as `#RRGGBB` in upper-case hexadecimal, as it is shown to the user.
    pub open spec fn hex_text(self) -> Seq<char> {
        seq!['#'] + hex_byte(self.r) + hex_byte(self.g) + hex_byte(self.b)
    }

    /// Formats the color as `#RRGGBB` (upper-case hexadecimal).
    pub fn to_hex_string(&self) -> (s: String)
        ensures
            s@ == self.hex_text(),
    {
        let mut s = String::new();
        s.push('#');
        push_hex_byte(&mut s, self.r);
        push_hex_byte(&mut s, self.g);
        push_hex_byte(&mut s, self.b);
        s
    }
}

/// An IP address of a device on the local network.
#[derive(Debug, Clone, Copy, PartialEq, Eq)]
pub enum IpAddress {
    V4([u8; 4]),
    V6([u16; 8]),
}

/// A Govee light device discovered on the local network.
#[derive(Debug, Clone, PartialEq, Eq)]
pub struct Device {
    /// Device MAC address (used as unique identifier).
    pub mac: String,
    /// Device model / SKU (e.g. "H6072").
    pub sku: String,
    /// Human-readable name (from device or config).
    pub name: Option<String>,
    /// IP address on the local network (LAN API only).
    pub ip: Option<IpAddress>,
}

impl Device {
    pub fn new(mac: &str, sku: &str) -> (d: Device)
        ensures
            d.mac@ == mac@,
            d.sku@ == sku@,
            d.name is None,
            d.ip is None,
    {
        Device { mac: mac.to_owned(), sku: sku.to_owned(), name: None, ip: None }
    }

    /// The name shown to the user: the device's name, or its SKU when it has none.
    pub open spec fn display_text(self) -> Seq<char> {
        match self.name {
            Some(n) => n@,
            None => self.sku@,
        }
    }

    pub fn display_name(&self) -> (s: &str)
        ensures
            s@ == self.display_text(),
    {
        match &self.name {
            Some(n) => n.as_str(),
            None => self.sku.as_str(),
        }
    }

    /// A copy of the device that keeps every field.
    pub fn duplicate(&self) -> (d: Device)
        ensures
            d == *self,
    {
        let name = match &self.name {
            Some(n) => Some(n.clone()),
            None => None,
        };
        Device { mac: self.mac.clone(), sku: self.sku.clone(), name, ip: self.ip }
    }
}

/// Current state of a Govee device.
#[derive(Debug, Clone, Copy, PartialEq, Eq, Structural)]
pub struct DeviceState {
    /// Whether the light is on.
    pub on: bool,
    /// Brightness level 1–100.
    pub brightness: u8,
    /// Current color.
    pub color: Color,
    /// Color temperature in Kelvin (2000–9000), or 0 if using RGB mode.
    pub color_temp_kelvin: u16,
}

impl DeviceState {
    /// The state a device is assumed to have before anything is known of it.
    pub open spec fn initial() -> DeviceState {
        DeviceState {
            on: false,
            brightness: 100,
            color: Color { r: 255, g: 255, b: 255 },
            color_temp_kelvin: 0,
        }
    }
}

impl Default for DeviceState {
    fn default() -> (s: DeviceState)
        ensures
            s == DeviceState::initial(),
    {
        DeviceState { on: false, brightness: 100, color: Color::white(), color_temp_kelvin: 0 }
    }
}

/// Commands that can be sent to a Govee device.
#[derive(Debug, Clone, Copy, PartialEq, Eq, Structural)]
pub enum Command {
    TurnOn,
    TurnOff,
    SetBrightness(u8),
    SetColor(Color),
    SetColorTemp(u16),
    QueryState,
}

} // verus!
