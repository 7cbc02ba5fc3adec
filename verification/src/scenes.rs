//! Scene presets: a colour palette spread over a list of devices.
//! When a scene is applied to N devices, device `i` receives
//! `palette[i % palette.len()]`.
use vstd::prelude::*;
use crate::models::{Color, Device};

verus! {

/// A single built-in scene preset.
pub struct Scene {
    /// Short human-readable name shown on the button.
    pub name: &'static str,
    /// Colour palette as `(r, g, b)` tuples.  Distributed across devices
    /// in round-robin order.
    pub palette: &'static [(u8, u8, u8)],
}

/// A named group of related [`Scene`]s.
pub struct Category {
    pub name: &'static str,
    pub scenes: &'static [Scene],
}

/// The color the device at `index` receives from a palette.
pub open spec fn palette_color(palette: Seq<(u8, u8, u8)>, index: nat) -> Color {
    let t = palette[(index % palette.len()) as int];
    Color { r: t.0, g: t.1, b: t.2 }
}

/// A palette is spread round-robin: the device at an index inside the
/// palette gets the palette entry at that index, and the colors repeat with
/// the palette's length.
pub proof fn palette_spread_round_robin(palette: Seq<(u8, u8, u8)>, index: nat)
    requires
        palette.len() > 0,
    ensures
        index < palette.len() ==> palette_color(palette, index) == (Color {
            r: palette[index as int].0,
            g: palette[index as int].1,
            b: palette[index as int].2,
        }),
        palette_color(palette, index + palette.len()) == palette_color(palette, index),
{
    vstd::arithmetic::div_mod::lemma_mod_add_multiples_vanish(index as int, palette.len() as int);
    if index < palette.len() {
        vstd::arithmetic::div_mod::lemma_small_mod(index, palette.len());
    }
}

impl Scene {
    /// The color the device at `index` receives: the palette entry at
    /// `index` modulo the palette's length.
    pub fn color_for(&self, index: usize) -> (c: Color)
        requires
            self.palette@.len() > 0,
        ensures
            c == palette_color(self.palette@, index as nat),
    {
        let t = self.palette[index % self.palette.len()];
        Color::new(t.0, t.1, t.2)
    }
}

/// The entries of an `ApplyScene` command: each device with the palette
/// color for its position and the given brightness.
pub fn scene_entries(devices: &Vec<Device>, scene: &Scene, brightness: u8) -> (entries: Vec<(Device, Color, u8)>)
    requires
        scene.palette@.len() > 0,
    ensures
        entries@.len() == devices@.len(),
        forall|i: int|
            0 <= i < devices@.len() ==> #[trigger] entries@[i] == (
                devices@[i],
                palette_color(scene.palette@, i as nat),
                brightness,
            ),
{
    let mut entries: Vec<(Device, Color, u8)> = Vec::new();
    let mut i: usize = 0;
    while i < devices.len()
        invariant
            i <= devices@.len(),
            scene.palette@.len() > 0,
            entries@.len() == i,
            forall|j: int|
                0 <= j < i ==> #[trigger] entries@[j] == (
                    devices@[j],
                    palette_color(scene.palette@, j as nat),
                    brightness,
                ),
        decreases devices@.len() - i,
    {
        entries.push((devices[i].duplicate(), scene.color_for(i), brightness));
        i = i + 1;
    }
    entries
}

} // verus!
