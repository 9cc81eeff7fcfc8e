use letterbox::camera::{change_camera_scaling, setup_camera, ResizeEvent};
use letterbox::frac::Frac;
use letterbox::letterbox::{spawn_letterbox, spawn_letterboxes, Letterbox};
use letterbox::viewport::{Projection, ScalingMode, ScreenUnits};

fn value(f: Frac) -> f64 {
    f.num as f64 / f.den as f64
}

fn close(a: f64, b: f64) -> bool {
    (a - b).abs() < 1e-3
}

fn resize(width: u32, height: u32) -> (Projection, Vec<Letterbox>) {
    let units = ScreenUnits::new(20, 15);
    let mut camera = setup_camera();
    let mut bars = spawn_letterboxes();
    let events = vec![ResizeEvent { width, height, is_primary: true }];
    change_camera_scaling(&mut camera, &events, &mut bars, &units);
    (camera, bars)
}

#[test]
fn wide_window_is_fixed_vertical() {
    let (camera, bars) = resize(1600, 900);
    assert_eq!(camera.scaling_mode, ScalingMode::FixedVertical);
    assert!(close(value(camera.scale), 7.5));
    // 900 / 15 = 60 pixels per unit; 1600 / 60 = 26.667 units visible.
    let pad = value(bars[0].transform.width);
    assert!(close(pad, 3.333));
    assert!(close(2.0 * pad + 20.0, 26.667));
    assert_eq!(bars[0].transform.width, Frac { num: 6000, den: 1800 });
    assert!(close(value(bars[0].transform.height), 15.0));
    assert!(close(value(bars[0].transform.x), 11.667));
    assert!(close(value(bars[1].transform.x), -11.667));
    assert!(close(value(bars[0].transform.y), 0.0));
    assert!(close(value(bars[1].transform.y), 0.0));
    assert_eq!(bars[1].transform.width, bars[0].transform.width);
    assert_eq!(bars[1].transform.height, bars[0].transform.height);
}

#[test]
fn tall_window_is_fixed_horizontal() {
    let (camera, bars) = resize(900, 1600);
    assert_eq!(camera.scaling_mode, ScalingMode::FixedHorizontal);
    assert!(close(value(camera.scale), 10.0));
    // 900 / 20 = 45 pixels per unit; 1600 / 45 = 35.556 units visible.
    let pad = value(bars[0].transform.height);
    assert!(close(pad, (1600.0 / 45.0 - 15.0) / 2.0));
    assert!(close(pad, 10.278));
    assert!(close(value(bars[0].transform.width), 20.0));
    assert!(close(value(bars[0].transform.y), (pad + 15.0) / 2.0));
    assert!(close(value(bars[1].transform.y), -(pad + 15.0) / 2.0));
    assert!(close(value(bars[0].transform.x), 0.0));
    assert!(close(value(bars[1].transform.x), 0.0));
}

#[test]
fn matching_aspect_has_no_padding() {
    let (camera, bars) = resize(800, 600);
    assert_eq!(camera.scaling_mode, ScalingMode::FixedVertical);
    assert!(close(value(camera.scale), 7.5));
    assert_eq!(bars[0].transform.width.num, 0);
    assert_eq!(bars[1].transform.width.num, 0);
    assert!(close(value(bars[0].transform.x), 10.0));
    assert!(close(value(bars[1].transform.x), -10.0));
}

#[test]
fn non_primary_resize_changes_nothing() {
    let units = ScreenUnits::new(20, 15);
    let mut camera = setup_camera();
    let mut bars = spawn_letterboxes();
    let before_camera = camera;
    let before_bars = bars.clone();
    let events = vec![
        ResizeEvent { width: 1600, height: 900, is_primary: false },
        ResizeEvent { width: 900, height: 1600, is_primary: false },
    ];
    change_camera_scaling(&mut camera, &events, &mut bars, &units);
    assert_eq!(camera, before_camera);
    assert_eq!(bars, before_bars);
    assert_eq!(camera.scaling_mode, ScalingMode::WindowSize);
}

#[test]
fn no_events_change_nothing() {
    let units = ScreenUnits::new(20, 15);
    let mut camera = setup_camera();
    let mut bars = spawn_letterboxes();
    change_camera_scaling(&mut camera, &Vec::new(), &mut bars, &units);
    assert_eq!(camera, setup_camera());
    assert_eq!(bars, spawn_letterboxes());
}

#[test]
fn only_first_primary_resize_counts() {
    let units = ScreenUnits::new(20, 15);
    let mut camera = setup_camera();
    let mut bars = spawn_letterboxes();
    let events = vec![
        ResizeEvent { width: 100, height: 1000, is_primary: false },
        ResizeEvent { width: 1600, height: 900, is_primary: true },
        ResizeEvent { width: 900, height: 1600, is_primary: true },
    ];
    change_camera_scaling(&mut camera, &events, &mut bars, &units);
    let (expected_camera, expected_bars) = resize(1600, 900);
    assert_eq!(camera, expected_camera);
    assert_eq!(bars, expected_bars);
}

#[test]
fn window_without_area_moves_camera_only() {
    let units = ScreenUnits::new(20, 15);
    let mut camera = setup_camera();
    let mut bars = spawn_letterboxes();
    let events = vec![
        ResizeEvent { width: 0, height: 0, is_primary: true },
        ResizeEvent { width: 1600, height: 900, is_primary: true },
    ];
    change_camera_scaling(&mut camera, &events, &mut bars, &units);
    assert_eq!(camera.scaling_mode, ScalingMode::FixedVertical);
    assert_eq!(camera.scale, Frac { num: 15, den: 2 });
    assert_eq!(bars, spawn_letterboxes());
}

#[test]
fn window_without_width_is_fixed_horizontal() {
    let units = ScreenUnits::new(20, 15);
    let mut camera = setup_camera();
    let mut bars = spawn_letterboxes();
    let events = vec![ResizeEvent { width: 0, height: 900, is_primary: true }];
    change_camera_scaling(&mut camera, &events, &mut bars, &units);
    assert_eq!(camera.scaling_mode, ScalingMode::FixedHorizontal);
    assert_eq!(camera.scale, Frac { num: 20, den: 2 });
    assert_eq!(bars, spawn_letterboxes());
}

#[test]
fn bars_of_other_ids_stay() {
    let units = ScreenUnits::new(20, 15);
    let mut camera = setup_camera();
    let mut bars = vec![spawn_letterbox(7), spawn_letterbox(1)];
    let events = vec![ResizeEvent { width: 1600, height: 900, is_primary: true }];
    change_camera_scaling(&mut camera, &events, &mut bars, &units);
    assert_eq!(bars[0], spawn_letterbox(7));
    assert!(close(value(bars[1].transform.x), -11.667));
}

#[test]
fn new_camera_and_bars() {
    let camera = setup_camera();
    assert_eq!(camera.scaling_mode, ScalingMode::WindowSize);
    assert_eq!(camera.scale, Frac::whole(1));
    let bars = spawn_letterboxes();
    assert_eq!(bars.len(), 2);
    assert_eq!(bars[0].id, 0);
    assert_eq!(bars[1].id, 1);
    assert_eq!(bars[0].transform.width, Frac::zero());
    assert_eq!(bars[1].transform.height, Frac::zero());
}

#[test]
fn largest_window_is_exact() {
    let (camera, bars) = resize(u32::MAX, 1);
    assert_eq!(camera.scaling_mode, ScalingMode::FixedVertical);
    let w = u32::MAX as i128;
    assert_eq!(bars[0].transform.width, Frac { num: w * 15 - 20, den: 2 });
    assert_eq!(bars[1].transform.x, Frac { num: -(w * 15 + 20), den: 4 });
}
