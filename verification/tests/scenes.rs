use govee::config::Group;
use govee::models::{Color, Device};
use govee::scenes::{scene_entries, Category, Scene};

static TRIO: &[(u8, u8, u8)] = &[(1, 2, 3), (4, 5, 6), (7, 8, 9)];
static SCENES: &[Scene] = &[Scene { name: "Trio", palette: TRIO }];

#[test]
fn palette_is_spread_round_robin() {
    let scene = &SCENES[0];
    assert_eq!(scene.color_for(0), Color::new(1, 2, 3));
    assert_eq!(scene.color_for(2), Color::new(7, 8, 9));
    assert_eq!(scene.color_for(3), Color::new(1, 2, 3));
    assert_eq!(scene.color_for(7), Color::new(4, 5, 6));
}

#[test]
fn scene_entries_pair_devices_with_colors() {
    let devices: Vec<Device> = (0..5).map(|i| Device::new(&format!("AA:0{i}"), "H6072")).collect();
    let entries = scene_entries(&devices, &SCENES[0], 80);
    assert_eq!(entries.len(), 5);
    for (i, (d, c, b)) in entries.iter().enumerate() {
        assert_eq!(d.mac, devices[i].mac);
        assert_eq!(*c, SCENES[0].color_for(i));
        assert_eq!(*b, 80);
    }
    assert_eq!(entries[4].1, Color::new(4, 5, 6));
}

#[test]
fn categories_hold_scenes() {
    let cat = Category { name: "Test", scenes: SCENES };
    assert_eq!(cat.scenes.len(), 1);
    assert_eq!(cat.scenes[0].name, "Trio");
}

#[test]
fn group_holds_macs() {
    let g = Group { name: "Upstairs".to_string(), macs: vec!["AA:01".to_string()] };
    assert_eq!(g.clone().macs, vec!["AA:01".to_string()]);
}
