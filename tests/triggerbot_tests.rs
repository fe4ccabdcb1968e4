use triggerbot::{
    capture_rect, compute_area, pixel_matches, scan_row, validate, CaptureError, CaptureRect,
    ConfigError, Keycode, MouseButton, Ratio, Resolution, Rgb, Settings, TriggerKey, Triggerbot,
    AREA_SCALE,
};

const TARGET: [i32; 3] = [240, 90, 255];

fn target_px() -> Rgb {
    Rgb { r: 240, g: 90, b: 255 }
}

fn background() -> Rgb {
    Rgb { r: 10, g: 10, b: 10 }
}

fn row_with(len: usize, hits: &[usize]) -> Vec<Rgb> {
    let mut row = vec![background(); len];
    for &i in hits {
        row[i] = target_px();
    }
    row
}

#[test]
fn default_settings_are_the_baseline() {
    let s = Settings::default();
    assert_eq!(s.resolution, Resolution { width: 3840, height: 2160 });
    assert_eq!(s.trigger_keys, vec![TriggerKey::Keyboard(Keycode::LShift)]);
    assert_eq!(s.trigger_delay, 50);
    assert_eq!(s.trigger_area, 10 * AREA_SCALE);
    assert_eq!(s.target_color, [240, 90, 255]);
    assert_eq!(s.color_tolerance, 50);
    assert!(!s.always_open);
    assert!(validate(&s).is_ok());
}

#[test]
fn is_default_tracks_edits_and_reset() {
    let mut bot = Triggerbot::default();
    assert!(bot.is_default_settings());
    assert!(!bot.enabled);
    bot.settings.trigger_delay = 51;
    assert!(!bot.is_default_settings());
    bot.settings.trigger_delay = 50;
    assert!(bot.is_default_settings());
    bot.settings.trigger_keys.push(TriggerKey::Mouse(MouseButton::LeftButton));
    assert!(!bot.is_default_settings());
    bot.settings.target_color = [240, 90, 254];
    bot.reset_settings();
    assert!(bot.is_default_settings());
}

#[test]
fn settings_equality_is_structural() {
    let a = Settings::default();
    let mut b = Settings::default();
    assert!(a == b);
    b.always_open = true;
    assert!(a != b);
}

#[test]
fn compute_area_exact_fractions() {
    let s = Settings::default();
    let area = compute_area(&s).unwrap();
    assert_eq!(area.x_percent, Ratio { num: 3_840_000 - 10_000, den: 7_680_000 });
    assert_eq!(area.y_percent, Ratio { num: 2_160_000 - 10_000, den: 4_320_000 });
    assert_eq!(area.width_percent, Ratio { num: 10_000, den: 3_840_000 });
    assert_eq!(area.height_percent, Ratio { num: 10_000, den: 2_160_000 });
}

#[test]
fn compute_area_spans_square_and_is_centered() {
    for &(w, h, a) in &[(1920u32, 1080u32, 7_500u32), (800, 600, 599_000), (3, 2, 1)] {
        let mut s = Settings::default();
        s.resolution = Resolution { width: w, height: h };
        s.trigger_area = a;
        let area = compute_area(&s).unwrap();
        let k = AREA_SCALE as i128;
        let wp = area.width_percent;
        let hp = area.height_percent;
        let x = area.x_percent;
        assert_eq!(wp.num as i128 * w as i128 * k, a as i128 * wp.den as i128);
        assert_eq!(hp.num as i128 * h as i128 * k, a as i128 * hp.den as i128);
        let f = (x.num as f64) / (x.den as f64) + (wp.num as f64) / (wp.den as f64) / 2.0;
        assert!((f - 0.5).abs() < 1e-12);
        assert_eq!(
            2 * x.num as i128 * wp.den as i128 + wp.num as i128 * x.den as i128,
            x.den as i128 * wp.den as i128
        );
    }
}

#[test]
fn compute_area_rejects_invalid_settings() {
    let mut s = Settings::default();
    s.resolution.width = 0;
    assert_eq!(compute_area(&s).err(), Some(ConfigError::ZeroResolution));
    let mut s = Settings::default();
    s.trigger_area = 0;
    assert_eq!(compute_area(&s).err(), Some(ConfigError::ZeroArea));
    let mut s = Settings::default();
    s.color_tolerance = -1;
    assert_eq!(compute_area(&s).err(), Some(ConfigError::NegativeTolerance));
    assert_eq!(validate(&s), Err(ConfigError::NegativeTolerance));
}

#[test]
fn area_larger_than_screen_is_not_clamped() {
    let mut s = Settings::default();
    s.resolution = Resolution { width: 4, height: 4 };
    s.trigger_area = 10 * AREA_SCALE;
    let area = compute_area(&s).unwrap();
    assert_eq!(area.x_percent, Ratio { num: -6_000, den: 8_000 });
    let rect = capture_rect(&area, s.resolution).unwrap();
    assert_eq!(rect, CaptureRect { x: -3, y: -3, width: 10, height: 1 });
}

#[test]
fn capture_rect_of_default_settings() {
    let bot = Triggerbot::default();
    let rect = bot.capture_region().unwrap();
    assert_eq!(rect, CaptureRect { x: 1915, y: 1075, width: 10, height: 1 });
}

#[test]
fn capture_rect_rounds_toward_zero() {
    let mut s = Settings::default();
    s.resolution = Resolution { width: 100, height: 100 };
    s.trigger_area = 10_500;
    let area = compute_area(&s).unwrap();
    let rect = capture_rect(&area, s.resolution).unwrap();
    // x = 50 - 5.25 = 44.75, width = 10.5
    assert_eq!(rect, CaptureRect { x: 44, y: 44, width: 10, height: 1 });
    s.trigger_area = 101_000;
    let area = compute_area(&s).unwrap();
    let rect = capture_rect(&area, s.resolution).unwrap();
    // x = 50 - 50.5 = -0.5, toward zero is 0
    assert_eq!(rect.x, 0);
    s.trigger_area = 103_000;
    let area = compute_area(&s).unwrap();
    let rect = capture_rect(&area, s.resolution).unwrap();
    assert_eq!(rect.x, -1);
}

#[test]
fn capture_rect_errors() {
    let mut area = compute_area(&Settings::default()).unwrap();
    area.width_percent.den = 0;
    assert_eq!(
        capture_rect(&area, Resolution { width: 3840, height: 2160 }),
        Err(CaptureError::ZeroDenominator)
    );
    let mut area = compute_area(&Settings::default()).unwrap();
    area.x_percent = Ratio { num: i64::MAX, den: 1 };
    assert_eq!(
        capture_rect(&area, Resolution { width: 3840, height: 2160 }),
        Err(CaptureError::OutOfRange)
    );
    let mut area = compute_area(&Settings::default()).unwrap();
    area.width_percent = Ratio { num: -1, den: 1 };
    assert_eq!(
        capture_rect(&area, Resolution { width: 3840, height: 2160 }),
        Err(CaptureError::OutOfRange)
    );
}

#[test]
fn exact_center_pixel_matches_with_zero_tolerance() {
    for len in 1..8usize {
        let row = row_with(len, &[len / 2]);
        let rep = scan_row(&row, TARGET, 0);
        assert!(rep.triggered());
        assert_eq!(rep.left_pos, len / 2);
        assert_eq!(rep.right_pos, len / 2);
    }
}

#[test]
fn tolerance_boundary() {
    let p = Rgb { r: 190, g: 90, b: 255 };
    assert!(pixel_matches(p, TARGET, 50));
    assert!(!pixel_matches(p, TARGET, 49));
    let q = Rgb { r: 240, g: 141, b: 255 };
    assert!(!pixel_matches(q, TARGET, 50));
    assert!(pixel_matches(q, TARGET, 51));
    let t = Rgb { r: 240, g: 90, b: 204 };
    assert!(pixel_matches(t, TARGET, 51));
    assert!(!pixel_matches(t, TARGET, 50));
    assert!(!pixel_matches(target_px(), TARGET, -1));
}

#[test]
fn extreme_target_does_not_overflow() {
    let p = Rgb { r: 0, g: 255, b: 0 };
    assert!(!pixel_matches(p, [i32::MIN, i32::MAX, 0], i32::MAX));
    assert!(pixel_matches(p, [0, 255, 0], i32::MAX));
}

#[test]
fn straddle_rule() {
    let row = row_with(10, &[0]);
    let rep = scan_row(&row, TARGET, 50);
    assert!(rep.left_found);
    assert!(!rep.right_found);
    assert!(!rep.triggered());

    let row = row_with(10, &[0, 9]);
    let rep = scan_row(&row, TARGET, 50);
    assert!(rep.triggered());
    assert_eq!(rep.left_pos, 0);
    assert_eq!(rep.right_pos, 9);

    let row = row_with(10, &[9]);
    let rep = scan_row(&row, TARGET, 50);
    assert!(!rep.left_found);
    assert!(rep.right_found);
    assert_eq!(rep.left_pos, 10);
}

#[test]
fn empty_row_finds_nothing() {
    let rep = scan_row(&Vec::new(), TARGET, 50);
    assert!(!rep.left_found && !rep.right_found);
    assert_eq!(rep.left_pos, 0);
    assert_eq!(rep.right_pos, 0);
}

#[test]
fn report_positions_are_extremes() {
    let row = row_with(9, &[1, 2, 4, 6, 7]);
    let rep = scan_row(&row, TARGET, 0);
    assert!(rep.triggered());
    assert_eq!(rep.left_pos, 1);
    assert_eq!(rep.right_pos, 7);
}

#[test]
fn activation_by_key_button_or_always_open() {
    let mut bot = Triggerbot::default();
    let none_k: Vec<Keycode> = vec![];
    let none_b: Vec<MouseButton> = vec![];
    assert!(!bot.trigger_active(&none_k, &none_b));
    assert!(bot.trigger_active(&vec![Keycode::A, Keycode::LShift], &none_b));
    assert!(!bot.trigger_active(&vec![Keycode::RShift], &vec![MouseButton::LeftButton]));
    bot.settings.trigger_keys.push(TriggerKey::Mouse(MouseButton::X1Button));
    assert!(bot.trigger_active(&none_k, &vec![MouseButton::X1Button]));
    bot.settings.always_open = true;
    assert!(bot.trigger_active(&none_k, &none_b));
}

#[test]
fn always_open_fires_without_keys() {
    let mut bot = Triggerbot::default();
    bot.enabled = true;
    bot.settings.always_open = true;
    let row = row_with(10, &[0, 9]);
    assert!(bot.triggerbot(&vec![], &vec![], &row, 1_000));
}

#[test]
fn disabled_never_fires() {
    let mut bot = Triggerbot::default();
    bot.settings.always_open = true;
    let row = row_with(10, &[0, 5, 9]);
    for t in 0..200u64 {
        assert!(!bot.triggerbot(&vec![Keycode::LShift], &vec![], &row, t));
        assert!(!bot.tick(true, true, t));
    }
    assert_eq!(bot.ready_at, 0);
}

#[test]
fn end_to_end_default_one_fire_then_pause() {
    let mut bot = Triggerbot::default();
    bot.set_resolution(3840, 2160).unwrap();
    bot.enabled = true;
    let rect = bot.capture_region().unwrap();
    assert_eq!((rect.x, rect.y, rect.width, rect.height), (1915, 1075, 10, 1));
    let row = row_with(rect.width as usize, &[0, rect.width as usize - 1]);
    let keys = vec![Keycode::LShift];
    assert!(bot.triggerbot(&keys, &vec![], &row, 10_000));
    assert_eq!(bot.ready_at, 10_050);
    for t in 10_000..10_050u64 {
        assert!(!bot.triggerbot(&keys, &vec![], &row, t));
    }
    assert!(bot.triggerbot(&keys, &vec![], &row, 10_050));
}

#[test]
fn zero_delay_allows_next_cycle() {
    let mut bot = Triggerbot::default();
    bot.enabled = true;
    bot.settings.trigger_delay = 0;
    assert!(bot.tick(true, true, 5));
    assert!(bot.tick(true, true, 5));
    bot.settings.trigger_delay = u64::MAX;
    assert!(bot.tick(true, true, 7));
    assert_eq!(bot.ready_at, u64::MAX);
}

#[test]
fn no_fire_without_activation_or_match() {
    let mut bot = Triggerbot::default();
    bot.enabled = true;
    assert!(!bot.tick(false, true, 0));
    assert!(!bot.tick(true, false, 0));
    let row = row_with(10, &[0]);
    assert!(!bot.triggerbot(&vec![Keycode::LShift], &vec![], &row, 0));
}

#[test]
fn set_resolution_recomputes_area() {
    let mut bot = Triggerbot::default();
    bot.set_resolution(1920, 1080).unwrap();
    assert_eq!(bot.settings.resolution, Resolution { width: 1920, height: 1080 });
    assert_eq!(bot.trigger_area.width_percent, Ratio { num: 10_000, den: 1_920_000 });
    assert_eq!(bot.capture_region().unwrap(), CaptureRect { x: 955, y: 535, width: 10, height: 1 });
    assert!(!bot.is_default_settings());
}

#[test]
fn set_resolution_rejects_zero_and_keeps_state() {
    let mut bot = Triggerbot::default();
    assert_eq!(bot.set_resolution(0, 1080), Err(ConfigError::ZeroResolution));
    assert_eq!(bot.set_resolution(1920, 0), Err(ConfigError::ZeroResolution));
    assert_eq!(bot.settings.resolution, Resolution { width: 3840, height: 2160 });
    assert!(bot.is_default_settings());
}

#[test]
fn update_trigger_area_follows_settings() {
    let mut bot = Triggerbot::default();
    bot.settings.trigger_area = 20 * AREA_SCALE;
    bot.update_trigger_area().unwrap();
    assert_eq!(bot.capture_region().unwrap().width, 20);
    bot.settings.trigger_area = 0;
    assert_eq!(bot.update_trigger_area(), Err(ConfigError::ZeroArea));
    assert_eq!(bot.trigger_area.width_percent, Ratio { num: 20_000, den: 3_840_000 });
}

#[test]
fn selectable_keys_in_order() {
    let bot = Triggerbot::default();
    let keys = bot.get_keys();
    assert_eq!(keys.len(), 37);
    assert_eq!(keys[0], TriggerKey::Mouse(MouseButton::LeftButton));
    assert_eq!(keys[4], TriggerKey::Mouse(MouseButton::X2Button));
    assert_eq!(keys[5], TriggerKey::Keyboard(Keycode::LShift));
    assert_eq!(keys[11], TriggerKey::Keyboard(Keycode::A));
    assert_eq!(keys[12], TriggerKey::Keyboard(Keycode::F));
    assert_eq!(keys[36], TriggerKey::Keyboard(Keycode::X));
}

#[test]
fn display_names() {
    let bot = Triggerbot::default();
    let name = |k: TriggerKey| bot.get_keys_display_name(&k);
    assert_eq!(name(TriggerKey::Keyboard(Keycode::LShift)), "Left Shift");
    assert_eq!(name(TriggerKey::Keyboard(Keycode::RAlt)), "Right Alt");
    assert_eq!(name(TriggerKey::Keyboard(Keycode::Q)), "Q");
    assert_eq!(name(TriggerKey::Mouse(MouseButton::MiddleButton)), "Mouse Middle (Wheel)");
    assert_eq!(name(TriggerKey::Mouse(MouseButton::X1Button)), "Mouse Backward (X1)");
    for k in bot.get_keys() {
        if let TriggerKey::Keyboard(c) = k {
            let n = name(k);
            if n.len() == 1 {
                assert_eq!(n, format!("{:?}", c));
            }
        }
    }
}

#[test]
fn resolution_label() {
    assert_eq!(Resolution { width: 3840, height: 2160 }.label(), "3840x2160");
    assert_eq!(Resolution { width: 0, height: 7 }.label(), "0x7");
    assert_eq!(Resolution { width: 10, height: 100 }.label(), "10x100");
    assert_eq!(
        Resolution { width: u32::MAX, height: 1 }.label(),
        format!("{}x1", u32::MAX)
    );
}

#[test]
fn capture_wanted_only_when_a_fire_could_follow() {
    let mut bot = Triggerbot::default();
    assert!(!bot.wants_capture(true, 0));
    bot.enabled = true;
    assert!(bot.wants_capture(true, 0));
    assert!(!bot.wants_capture(false, 0));
    bot.settings.always_open = true;
    assert!(bot.wants_capture(false, 0));
    assert!(bot.tick(false, true, 0));
    assert!(!bot.wants_capture(true, 49));
    assert!(bot.wants_capture(true, 50));
}
