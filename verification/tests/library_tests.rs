use chrono::{FixedOffset, NaiveTime, TimeZone, Timelike};
use dmm_game_bot::bot::cycle::{
    cutoff_from_parsed, jst_offset, next_cutoff_after, now_jst, parse_cutoff_hh_mm, OffsetDateTime, TimeOfDay,
};
use dmm_game_bot::bot::humanize::{jitter_click_point, random_delay, random_press_duration_ms};
use dmm_game_bot::cli::{log_level, Cli, Command};
use dmm_game_bot::config::{
    CaptureConfig, Config, InputConfig, LoopConfig, SafetyConfig, StopConfig, TemplateConfig, WindowConfig,
};
use dmm_game_bot::error::{BotError, ConfigError};
use dmm_game_bot::ieee::{
    bits_ge, bits_gt, bits_is_finite, bits_is_nan, bits_le, bits_lt, bits_max, bits_sub_abs_le, ONE_BITS,
    ZERO_BITS,
};
use dmm_game_bot::platform::capture::{bgra_to_rgba, capture_area_is_empty, crop_rgba};
use dmm_game_bot::platform::input::{check_sent, normalize_virtual_desk, DryRunSender, InputSender};
use dmm_game_bot::platform::window::{client_window_rect, rect_extent, title_matches};
use dmm_game_bot::text::{push_decimal, push_str, str_eq};
use dmm_game_bot::vision::coords::{clamp_to_client, client_to_screen, full_rect};
use dmm_game_bot::vision::matcher::{
    crop, find_extremes_max, gray_frame_from_rgba, match_from_scores, GrayFrame, Matcher, Rect,
};
use dmm_game_bot::bot::sequence::detect_sorted;
use dmm_game_bot::vision::template::{
    str_less, template_from_bytes, template_from_decoded, Template, TemplateLibrary,
};

const JST: i32 = 9 * 3600;

fn jst(y: i32, mo: u32, d: u32, h: u32, mi: u32, s: u32) -> OffsetDateTime {
    let dt = FixedOffset::east_opt(JST).unwrap().with_ymd_and_hms(y, mo, d, h, mi, s).unwrap();
    OffsetDateTime { timestamp: dt.timestamp(), nanos: 0, offset_secs: JST }
}

fn five_am() -> TimeOfDay {
    TimeOfDay { secs: 5 * 3600, nanos: 0 }
}

// --- floats carried as bits ---

#[test]
fn ieee_comparisons_follow_f32() {
    let vals = [0.0f32, -0.0, 0.5, 0.8, 0.9, 1.0, -1.0, f32::INFINITY, f32::NEG_INFINITY, f32::NAN, 1e-40, -3.5];
    for a in vals {
        assert_eq!(bits_is_nan(a.to_bits()), a.is_nan());
        assert_eq!(bits_is_finite(a.to_bits()), a.is_finite());
        for b in vals {
            assert_eq!(bits_ge(a.to_bits(), b.to_bits()), a >= b, "{} >= {}", a, b);
            assert_eq!(bits_gt(a.to_bits(), b.to_bits()), a > b, "{} > {}", a, b);
            assert_eq!(bits_le(a.to_bits(), b.to_bits()), a <= b, "{} <= {}", a, b);
            assert_eq!(bits_lt(a.to_bits(), b.to_bits()), a < b, "{} < {}", a, b);
            let m = f32::from_bits(bits_max(a.to_bits(), b.to_bits()));
            let expected = a.max(b);
            assert!(m == expected || (m.is_nan() && expected.is_nan()), "max({}, {})", a, b);
        }
    }
    assert_eq!(ZERO_BITS, 0.0f32.to_bits());
    assert_eq!(ONE_BITS, 1.0f32.to_bits());
}

#[test]
fn tolerance_of_scores() {
    let tol = 0.03f32.to_bits();
    assert!(bits_sub_abs_le(0.95f32.to_bits(), 0.93f32.to_bits(), tol));
    assert!(bits_sub_abs_le(0.93f32.to_bits(), 0.95f32.to_bits(), tol));
    assert!(!bits_sub_abs_le(0.95f32.to_bits(), 0.90f32.to_bits(), tol));
    assert!(bits_sub_abs_le(0.5f32.to_bits(), 0.5f32.to_bits(), 0));
    assert!(!bits_sub_abs_le(f32::NAN.to_bits(), 0.5f32.to_bits(), tol));
    assert!(bits_sub_abs_le(0.0f32.to_bits(), (-0.0f32).to_bits(), 0));
    // Rounding of the difference: consistent in f32 although the exact
    // difference exceeds the tolerance.
    let a = f32::from_bits(0.5f32.to_bits() + 1);
    let b = 3.0 * 2f32.powi(-26);
    assert_eq!(bits_sub_abs_le(a.to_bits(), b.to_bits(), 0.5f32.to_bits()), (a - b).abs() <= 0.5);
    assert!((a - b).abs() <= 0.5);
}

#[test]
fn tolerance_matches_f32_everywhere() {
    let mut vals: Vec<f32> = vec![
        0.0, -0.0, 1.0, -1.0, 0.5, 0.03, 0.9, 0.93, 0.95, 0.97, 1e-45, -1e-45, 1e-38, 3.4e38, -3.4e38,
        f32::MAX, f32::MIN, f32::MIN_POSITIVE, f32::INFINITY, f32::NEG_INFINITY, f32::NAN, 1e20, 1e-20,
        f32::from_bits(0.5f32.to_bits() + 1), 3.0 * 2f32.powi(-26), 2f32.powi(-24), 2f32.powi(-25),
    ];
    let mut x: u32 = 0x1234_5678;
    for _ in 0..60 {
        x = x.wrapping_mul(1_664_525).wrapping_add(1_013_904_223);
        vals.push(f32::from_bits(x));
        vals.push(f32::from_bits(x & 0x3FFF_FFFF));
    }
    for &a in &vals {
        for &b in &vals {
            for &t in &vals {
                let expected = (a - b).abs() <= t;
                assert_eq!(bits_sub_abs_le(a.to_bits(), b.to_bits(), t.to_bits()), expected, "|{:e} - {:e}| <= {:e}", a, b, t);
            }
        }
    }
    // Ties of the rounded difference.
    let one = 1.0f32;
    for k in 0..40u32 {
        let a = f32::from_bits(one.to_bits() + k);
        for j in 20..30 {
            let b = 2f32.powi(-j);
            let d = a - b;
            assert_eq!(bits_sub_abs_le(a.to_bits(), b.to_bits(), d.to_bits()), true);
            let below = f32::from_bits(d.to_bits() - 1);
            assert_eq!(bits_sub_abs_le(a.to_bits(), b.to_bits(), below.to_bits()), (a - b).abs() <= below);
        }
    }
}

// --- the daily cutoff ---

#[test]
fn parse_cutoff_accepts_hh_mm() {
    let t = parse_cutoff_hh_mm("05:00").unwrap();
    assert_eq!((t.secs, t.nanos), (18_000, 0));
    let t = parse_cutoff_hh_mm("23:59").unwrap();
    assert_eq!(t.secs, 23 * 3600 + 59 * 60);
    let expected = NaiveTime::parse_from_str("07:30", "%H:%M").unwrap();
    assert_eq!(parse_cutoff_hh_mm("07:30").unwrap().secs, expected.num_seconds_from_midnight());
}

#[test]
fn parse_cutoff_rejects_garbage() {
    for bad in ["25:00", "5am", "", "05:60", "a\"b"] {
        let chrono_err = NaiveTime::parse_from_str(bad, "%H:%M").unwrap_err();
        match parse_cutoff_hh_mm(bad) {
            Err(BotError::Config(ConfigError::Message(m))) => {
                assert_eq!(m, format!("invalid daily_cutoff_jst {:?}: {}", bad, chrono_err))
            },
            other => panic!("{} gave {:?}", bad, other),
        }
    }
}

#[test]
fn cutoff_from_parsed_values() {
    let t = cutoff_from_parsed("x", Ok((60, 5))).unwrap();
    assert_eq!((t.secs, t.nanos), (60, 5));
    match cutoff_from_parsed("a\tb", Err("bad".to_string())) {
        Err(BotError::Config(ConfigError::Message(m))) => assert_eq!(m, "invalid daily_cutoff_jst \"a\\tb\": bad"),
        other => panic!("unexpected {:?}", other),
    }
}

#[test]
fn templates_decode_from_png_bytes() {
    let img = image::GrayImage::from_raw(3, 2, vec![0, 50, 100, 150, 200, 250]).unwrap();
    let mut bytes = std::io::Cursor::new(Vec::new());
    img.write_to(&mut bytes, image::ImageFormat::Png).unwrap();
    let cfg = TemplateConfig { file: "t.png".into(), threshold: 0.9f32.to_bits(), roi: None };
    let t = template_from_bytes("t", bytes.get_ref(), &cfg).unwrap();
    assert_eq!((t.width, t.height), (3, 2));
    assert_eq!(t.pixels, vec![0, 50, 100, 150, 200, 250]);
    assert_eq!(t.name, "t");
    assert_eq!(t.threshold, 0.9f32.to_bits());
    let other_ext = TemplateConfig { file: "t.jpg".into(), threshold: 0.9f32.to_bits(), roi: None };
    assert!(matches!(template_from_bytes("t", bytes.get_ref(), &other_ext), Err(BotError::Image(_))));
    let no_ext = TemplateConfig { file: "t".into(), threshold: 0.9f32.to_bits(), roi: None };
    assert!(matches!(template_from_bytes("t", bytes.get_ref(), &no_ext), Err(BotError::Image(_))));
    let upper = TemplateConfig { file: "dir/T.PNG".into(), threshold: 0.9f32.to_bits(), roi: None };
    assert!(template_from_bytes("t", bytes.get_ref(), &upper).is_ok());
    match template_from_bytes("t", &[1, 2, 3, 4], &cfg) {
        Err(BotError::Image(m)) => assert!(!m.is_empty()),
        other => panic!("unexpected {:?}", other.map(|t| t.name)),
    }
    assert!(matches!(template_from_decoded("t", Ok((vec![1, 2, 3], 2, 2)), &cfg), Err(BotError::Image(_))));
    assert!(matches!(template_from_decoded("t", Err("x".into()), &cfg), Err(BotError::Image(m)) if m == "x"));
}

#[test]
fn gray_frames_match_image_conversion() {
    let rgba: Vec<u8> = (0u8..48).map(|v| v.wrapping_mul(37)).collect();
    let expected = image::DynamicImage::ImageRgba8(image::RgbaImage::from_raw(4, 3, rgba.clone()).unwrap())
        .to_luma8()
        .into_raw();
    let f = gray_frame_from_rgba(4, 3, rgba);
    assert_eq!((f.width, f.height), (4, 3));
    assert_eq!(f.pixels, expected);
    let white = gray_frame_from_rgba(1, 1, vec![255, 255, 255, 255]);
    assert_eq!(white.pixels, vec![255]);
}

#[test]
fn match_from_scores_reads_the_best_position() {
    let c = Rect { x: 10, y: 20, w: 5, h: 4 };
    let s = |v: f32| v.to_bits();
    let scores = vec![s(0.1), s(0.2), s(0.95), s(0.3), s(0.99), s(0.99)];
    let (m, best) = match_from_scores(&scores, c, 3, 3, 0.9f32.to_bits());
    let m = m.unwrap();
    assert_eq!(best, s(0.99));
    assert_eq!((m.center_x, m.center_y), (10 + 1 + 1, 20 + 1 + 1));
    let (m, best) = match_from_scores(&scores, c, 3, 3, 0.995f32.to_bits());
    assert!(m.is_none());
    assert_eq!(best, s(0.99));
}

#[test]
fn next_cutoff_same_day_when_still_ahead() {
    let start = jst(2024, 6, 1, 4, 59, 59);
    let r = next_cutoff_after(start, five_am());
    assert_eq!(r, jst(2024, 6, 1, 5, 0, 0));
}

#[test]
fn next_cutoff_next_day_at_or_after_cutoff() {
    let r = next_cutoff_after(jst(2024, 6, 1, 5, 0, 0), five_am());
    assert_eq!(r, jst(2024, 6, 2, 5, 0, 0));
    let r = next_cutoff_after(jst(2024, 6, 1, 5, 0, 1), five_am());
    assert_eq!(r, jst(2024, 6, 2, 5, 0, 0));
    let r = next_cutoff_after(jst(2024, 12, 31, 23, 0, 0), five_am());
    assert_eq!(r, jst(2025, 1, 1, 5, 0, 0));
}

#[test]
fn next_cutoff_respects_sub_second_start() {
    let mut start = jst(2024, 6, 1, 5, 0, 0);
    start.timestamp -= 1;
    start.nanos = 999_999_999;
    assert_eq!(next_cutoff_after(start, five_am()), jst(2024, 6, 1, 5, 0, 0));
}

#[test]
fn next_cutoff_before_epoch() {
    let r = next_cutoff_after(jst(1960, 3, 1, 12, 0, 0), five_am());
    assert_eq!(r, jst(1960, 3, 2, 5, 0, 0));
}

#[test]
fn clock_is_jst_and_current() {
    assert_eq!(jst_offset(), 32_400);
    let now = now_jst();
    assert_eq!(now.offset_secs, 32_400);
    let sys = chrono::Utc::now().timestamp();
    assert!((now.timestamp - sys).abs() <= 5);
    assert!(now.nanos < 2_000_000_000);
}

// --- humanized timing ---

#[test]
fn random_durations_stay_in_range() {
    let mut seen = std::collections::HashSet::new();
    for _ in 0..300 {
        let d = random_press_duration_ms(60, 120);
        assert!((60..=120).contains(&d));
        seen.insert(d);
        let e = random_delay(150, 300);
        assert!((150..=300).contains(&e));
    }
    assert!(seen.len() > 1);
    assert_eq!(random_press_duration_ms(80, 80), 80);
    assert_eq!(random_press_duration_ms(90, 10), 90);
    assert_eq!(random_delay(7, 3), 7);
}

#[test]
fn jitter_stays_within_radius() {
    assert_eq!(jitter_click_point((10, 20), 0), (10, 20));
    let mut seen = std::collections::HashSet::new();
    for _ in 0..200 {
        let (x, y) = jitter_click_point((100, -100), 2);
        assert!((98..=102).contains(&x));
        assert!((-102..=-98).contains(&y));
        seen.insert((x, y));
    }
    assert!(seen.len() > 1);
}

// --- platform helpers ---

#[test]
fn bgra_becomes_rgba() {
    let mut buf = vec![1u8, 2, 3, 4, 5, 6, 7, 8, 9, 10];
    bgra_to_rgba(&mut buf);
    assert_eq!(buf, vec![3, 2, 1, 4, 7, 6, 5, 8, 9, 10]);
    assert!(capture_area_is_empty(0, 10));
    assert!(capture_area_is_empty(10, 0));
    assert!(!capture_area_is_empty(1, 1));
}

#[test]
fn absolute_mouse_coordinates() {
    assert_eq!(normalize_virtual_desk(0, 0, 0, 0, 1920, 1080), (0, 0));
    assert_eq!(normalize_virtual_desk(1919, 1079, 0, 0, 1920, 1080), (65535, 65535));
    assert_eq!(normalize_virtual_desk(960, 540, 0, 0, 1920, 1080), (960 * 65535 / 1919, 540 * 65535 / 1079));
    assert_eq!(normalize_virtual_desk(-1920, 0, -1920, 0, 3840, 1080), (0, 0));
    assert_eq!(normalize_virtual_desk(5, 5, 0, 0, 1, 0), (5 * 65535, 5 * 65535));
    assert_eq!(normalize_virtual_desk(-10, 0, 0, 0, 1920, 1080), (-10 * 65535 / 1919, 0));
}

#[test]
fn input_sending_helpers() {
    assert!(check_sent(3, 3).is_ok());
    assert!(matches!(check_sent(1, 3), Err(BotError::InputFailed(_))));
    assert!(DryRunSender.click_at(1, 2, 3).is_ok());
}

#[test]
fn window_geometry_and_title() {
    assert_eq!(rect_extent(10, 30), 20);
    assert_eq!(rect_extent(30, 10), 0);
    let r = client_window_rect(100, 200, 0, 0, 1280, 720);
    assert_eq!((r.screen_x, r.screen_y, r.width, r.height), (100, 200, 1280, 720));
    assert!(title_matches("DMM GAMES - ゲーム", "GAMES"));
    assert!(title_matches("abc", ""));
    assert!(title_matches("ゲーム画面", "ム画"));
    assert!(!title_matches("abc", "abcd"));
    assert!(!title_matches("abcabd", "abe"));
}

#[test]
fn coordinate_helpers() {
    assert_eq!(client_to_screen(-100, 50, 10, 20), (-90, 70));
    assert_eq!(full_rect(1280, 720), Rect { x: 0, y: 0, w: 1280, h: 720 });
    assert_eq!(clamp_to_client(0, 0, 0, 0, 100, 100), Rect { x: 0, y: 0, w: 1, h: 1 });
    assert_eq!(clamp_to_client(150, 20, 30, 200, 100, 100), Rect { x: 99, y: 20, w: 1, h: 80 });
    assert_eq!(clamp_to_client(5, 5, 5, 5, 0, 100), Rect { x: 0, y: 0, w: 0, h: 0 });
}

// --- matching ---

#[test]
fn crop_and_extremes() {
    let frame = GrayFrame { width: 4, height: 3, pixels: (0u8..12).collect() };
    assert_eq!(crop(&frame, 1, 1, 2, 2), vec![5, 6, 9, 10]);
    let s = vec![0.5f32.to_bits(), 0.9f32.to_bits(), f32::NAN.to_bits(), 0.9f32.to_bits(), 0.1f32.to_bits()];
    assert_eq!(find_extremes_max(&s), (0.9f32.to_bits(), 1));
}

#[test]
fn matcher_finds_template_with_imageproc() {
    let w = 30u32;
    let h = 20u32;
    let pixels: Vec<u8> = (0..w * h).map(|i| ((i * 53 + (i / w) * 29 + (i % 7) * 11) % 241) as u8).collect();
    let frame = GrayFrame { width: w, height: h, pixels };
    let tpl_pixels = crop(&frame, 17, 9, 6, 5);
    let tpl = Template {
        name: "t".to_string(),
        pixels: tpl_pixels,
        width: 6,
        height: 5,
        threshold: 0.98f32.to_bits(),
        roi: None,
    };
    let (m, best) = Matcher::new().find_in_rect(&frame, &tpl, Rect { x: 0, y: 0, w, h });
    let m = m.unwrap();
    assert_eq!((m.center_x, m.center_y), (17 + 3, 9 + 2));
    assert_eq!(m.score, best);
    assert!(f32::from_bits(best) > 0.99);
    let (m2, _) = Matcher::new().find_in_rect(&frame, &tpl, Rect { x: 10, y: 5, w: 1000, h: 1000 });
    assert_eq!(m2.map(|m| (m.center_x, m.center_y)), Some((20, 11)));
    let (m3, s3) = Matcher::new().find_in_rect(&frame, &tpl, Rect { x: 0, y: 0, w: 5, h: 5 });
    assert!(m3.is_none());
    assert_eq!(s3, 0);
}

#[test]
fn template_library_lookup() {
    let t = |name: &str, w: u32| Template {
        name: name.to_string(),
        pixels: vec![1; (w * w) as usize],
        width: w,
        height: w,
        threshold: 0.9f32.to_bits(),
        roi: None,
    };
    match TemplateLibrary::from_templates(vec![t("a", 1), t("b", 2), t("a", 3)]) {
        Err(BotError::Config(ConfigError::DuplicateTemplate { template })) => assert_eq!(template, "a"),
        _ => panic!("expected DuplicateTemplate"),
    }
    let mut bad = t("c", 2);
    bad.pixels.pop();
    assert!(matches!(TemplateLibrary::from_templates(vec![bad]), Err(BotError::Image(_))));
    let lib = TemplateLibrary::from_templates(vec![t("b", 2), t("a", 1), t("c", 3)]).unwrap();
    assert_eq!(lib.get("a").unwrap().width, 1);
    assert_eq!(lib.get("b").unwrap().width, 2);
    assert!(lib.get("zz").is_none());
    match lib.require("zzz") {
        Err(BotError::TemplateNotFound(n)) => assert_eq!(n, "zzz"),
        _ => panic!("expected TemplateNotFound"),
    }
    assert_eq!(lib.names(), vec!["b".to_string(), "a".to_string(), "c".to_string()]);
    assert_eq!(lib.name_order(), vec![1, 0, 2]);
    assert_eq!(lib.templates().len(), 3);
}

#[test]
fn string_order_is_str_order() {
    let words = ["", "a", "ab", "b", "B", "ゲーム", "ap_plus_button", "ap_recovered_use_max", "close_button"];
    for a in words {
        for b in words {
            assert_eq!(str_less(a, b), a < b, "{:?} < {:?}", a, b);
        }
    }
}

#[test]
fn detection_rows_are_sorted_by_name() {
    let w = 30u32;
    let h = 20u32;
    let pixels: Vec<u8> = (0..w * h).map(|i| ((i * 53 + (i / w) * 29 + (i % 7) * 11) % 241) as u8).collect();
    let frame = GrayFrame { width: w, height: h, pixels };
    let mk = |name: &str, x: u32| Template {
        name: name.to_string(),
        pixels: crop(&frame, x, 3, 6, 5),
        width: 6,
        height: 5,
        threshold: 0.98f32.to_bits(),
        roi: None,
    };
    let lib = TemplateLibrary::from_templates(vec![mk("zeta", 2), mk("alpha", 15)]).unwrap();
    let full = Rect { x: 0, y: 0, w, h };
    let small = Rect { x: 0, y: 0, w: 5, h: 5 };
    let rows = detect_sorted(&frame, &lib, &vec![full, small]);
    assert_eq!(rows.len(), 2);
    assert_eq!(rows[0].template, "alpha");
    assert!(!rows[0].matched);
    assert_eq!(rows[0].center, None);
    assert_eq!(rows[1].template, "zeta");
    assert!(rows[1].matched);
    assert_eq!(rows[1].center, Some((2 + 3, 3 + 2)));
}

// --- errors and text ---

#[test]
fn error_messages() {
    assert_eq!(BotError::WindowNotFound("x".into()).message(), "window not found: x");
    assert_eq!(BotError::CaptureFailed("x".into()).message(), "capture failed: x");
    assert_eq!(
        BotError::TemplateWaitTimeout { template: "next_button".into(), elapsed_ms: 60000, best_score: 0 }.message(),
        "template wait timeout: next_button for 60000ms"
    );
    assert!(BotError::ReissekiGuardFailed { best_score: 0 }.message().starts_with("reisseki guard failed"));
    assert_eq!(BotError::InputFailed("x".into()).message(), "input send failed: x");
    assert_eq!(BotError::TemplateNotFound("x".into()).message(), "template not found in library: x");
    assert_eq!(BotError::Config(ConfigError::GuardRoiMissing).message(),
        "config error: reisseki_zero_guard requires explicit roi (refusing fullscreen search)");
    assert_eq!(BotError::TomlParse("x".into()).message(), "toml parse error: x");
    assert_eq!(BotError::Image("x".into()).message(), "image error: x");
    assert_eq!(BotError::Io("disk".into()).message(), "disk");
    assert_eq!(BotError::other("x".into()).message(), "other: x");
    assert_eq!(ConfigError::Message("free text".into()).message(), "free text");
    assert_eq!(
        ConfigError::TemplateFilePath { template: "a".into(), file: "../b".into() }.message(),
        "template 'a': file '../b' must be a relative path inside the templates directory"
    );
}

#[test]
fn text_helpers() {
    assert!(str_eq("abc", "abc"));
    assert!(!str_eq("abc", "abd"));
    assert!(!str_eq("abc", "ab"));
    let mut s = String::new();
    push_str(&mut s, "n=");
    push_decimal(&mut s, 0);
    push_str(&mut s, ",");
    push_decimal(&mut s, 18_446_744_073_709_551_615);
    assert_eq!(s, "n=0,18446744073709551615");
}

// --- command line ---

fn cli() -> Cli {
    Cli {
        config: "config.toml".to_string(),
        dry_run: false,
        live: false,
        templates_dir: None,
        window_title: None,
        max_cycles: None,
        post_battle_min_wait_ms: None,
        verbose: 0,
        command: None,
    }
}

fn config() -> Config {
    Config {
        window: WindowConfig { title_pattern: "DMM".to_string() },
        capture: CaptureConfig::default(),
        loop_: LoopConfig::default(),
        stop: StopConfig::default(),
        input: InputConfig::default(),
        safety: SafetyConfig::default(),
        templates: Vec::new(),
        templates_dir: "templates".to_string(),
    }
}

#[test]
fn cli_overrides() {
    let mut c = cli();
    assert_eq!(c.dry_run_override(), None);
    c.live = true;
    assert_eq!(c.dry_run_override(), Some(false));
    c.dry_run = true;
    assert_eq!(c.dry_run_override(), Some(true));
    let mut cfg = config();
    cli().apply_overrides(&mut cfg);
    assert_eq!(cfg.templates_dir, "templates");
    assert_eq!(cfg.window.title_pattern, "DMM");
    let mut c = cli();
    c.templates_dir = Some("other".into());
    c.window_title = Some("Game".into());
    c.post_battle_min_wait_ms = Some(10);
    c.apply_overrides(&mut cfg);
    assert_eq!(cfg.templates_dir, "other");
    assert_eq!(cfg.window.title_pattern, "Game");
    assert_eq!(cfg.loop_.poll.post_battle_min_wait_ms, 10);
    assert_eq!(cfg.loop_.poll.default_interval_ms, 1500);
    assert!(matches!(cli().command_or_default(), Command::Run));
    let mut c = cli();
    c.command = Some(Command::Capture { output: "shot.png".into() });
    assert!(matches!(c.command_or_default(), Command::Capture { output } if output == "shot.png"));
    c.command = Some(Command::DetectOnce);
    assert!(matches!(c.command_or_default(), Command::DetectOnce));
    assert_eq!(log_level(0), "info");
    assert_eq!(log_level(1), "debug");
    assert_eq!(log_level(2), "trace");
    assert_eq!(log_level(9), "trace");
}

#[test]
fn crop_rgba_matches_crop_imm() {
    let (w, h) = (7u32, 5u32);
    let raw: Vec<u8> = (0..4 * w * h).map(|v| (v * 13 % 256) as u8).collect();
    let img = image::RgbaImage::from_raw(w, h, raw.clone()).unwrap();
    let cases = [(0, 0, 7, 5), (2, 1, 3, 2), (5, 3, 10, 10), (9, 9, 2, 2), (0, 4, 7, 1), (3, 0, 0, 3), (6, 4, 1, 1)];
    for (x, y, cw, ch) in cases {
        let expected = image::imageops::crop_imm(&img, x, y, cw, ch).to_image();
        let (pixels, rw, rh) = crop_rgba(&raw, w, h, x, y, cw, ch);
        assert_eq!((rw, rh), expected.dimensions(), "{:?}", (x, y, cw, ch));
        assert_eq!(pixels, expected.into_raw(), "{:?}", (x, y, cw, ch));
    }
}

#[test]
fn match_centre_keeps_the_template_inside_the_roi() {
    let c = Rect { x: 10, y: 20, w: 5, h: 4 };
    let s = |v: f32| v.to_bits();
    let scores = vec![s(0.1), s(0.2), s(0.3), s(0.4), s(0.5), s(0.99)];
    let (m, _) = match_from_scores(&scores, c, 3, 3, 0.9f32.to_bits());
    let m = m.unwrap();
    assert_eq!((m.center_x, m.center_y), (10 + 2 + 1, 20 + 1 + 1));
    assert!(m.center_x <= c.x + c.w - 3 + 3 / 2);
    assert!(m.center_y <= c.y + c.h - 3 + 3 / 2);
}
