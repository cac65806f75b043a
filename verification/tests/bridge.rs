use nzxt_ctl::bridge::{
    apply_curve, apply_edits, editor_after_load, empty_curves_json, save_refusal, LiveView, fmt_channel_status, fmt_pct, fmt_rpm, fmt_temp,
    parse_mode, parse_temp_source, save_status, source_mode_str, temp_source_str,
    CurveEdit,
};
use nzxt_ctl::ipc::LiveState;
use nzxt_ctl::config::{sort_by_temp, ChannelCurve, Config, CurvePoint, HwmonPaths, LcdConfig, Mode, ModeConfig, TempSource};

fn c(deg: f32) -> i32 {
    (deg * 1000.0).round() as i32
}

fn sample_curve() -> ChannelCurve {
    ChannelCurve {
        temp_source: TempSource::Cpu,
        points: vec![
            CurvePoint { temp_mdeg: c(20.0), duty_pct: 30 },
            CurvePoint { temp_mdeg: c(55.0), duty_pct: 90 },
        ],
    }
}

fn edit(source: &str, points: &[(f32, u8)]) -> CurveEdit {
    CurveEdit {
        temp_source: source.to_string(),
        points: points.iter().map(|&(t, d)| CurvePoint { temp_mdeg: c(t), duty_pct: d }).collect(),
    }
}

/// A curve handed to the front end and applied back unchanged keeps its
/// source and points (the JSON framing of this trip lives in the GUI).
#[test]
fn curve_json_round_trips() {
    let cfg = Config {
        hwmon: HwmonPaths { device_name: "kraken2023elite".into() },
        mode: ModeConfig::default(),
        pump_curve: sample_curve(),
        fan_curve: sample_curve(),
        poll_interval_ms: 1000,
        lcd: LcdConfig::default(),
    };
    let handed_out = CurveEdit {
        temp_source: temp_source_str(cfg.pump_curve.temp_source).to_string(),
        points: cfg.pump_curve.points.clone(),
    };

    let mut target = sample_curve();
    target.points.clear();
    apply_curve(&mut target, &handed_out).unwrap();

    assert_eq!(target.temp_source, TempSource::Cpu);
    assert_eq!(target.points.len(), 2);
    assert_eq!(target.points[0].temp_mdeg, c(20.0));
    assert_eq!(target.points[0].duty_pct, 30);
    assert_eq!(target.points[1].duty_pct, 90);
}

#[test]
fn apply_curve_sorts_points_ascending() {
    let src = edit("liquid", &[(55.0, 90), (20.0, 30), (35.0, 50)]);
    let mut target = sample_curve();
    apply_curve(&mut target, &src).unwrap();
    let temps: Vec<i32> = target.points.iter().map(|p| p.temp_mdeg).collect();
    assert_eq!(temps, vec![c(20.0), c(35.0), c(55.0)]);
}

#[test]
fn apply_curve_rejects_empty_and_unknown_source() {
    let mut target = sample_curve();

    let empty = edit("liquid", &[]);
    assert!(apply_curve(&mut target, &empty).is_err());

    let bad_source = edit("nonsense", &[(20.0, 30)]);
    assert!(apply_curve(&mut target, &bad_source).is_err());
}

#[test]
fn apply_curve_errors_leave_the_curve_and_say_why() {
    let mut target = sample_curve();
    assert_eq!(
        apply_curve(&mut target, &edit("nonsense", &[(20.0, 30)])),
        Err("Unknown temp source: nonsense".to_string())
    );
    assert_eq!(
        apply_curve(&mut target, &edit("gpu", &[])),
        Err("A curve must have at least one point".to_string())
    );
    assert_eq!(target.temp_source, TempSource::Cpu);
    assert_eq!(target.points, sample_curve().points);
}

#[test]
fn apply_curve_caps_duty_and_keeps_equal_temperatures_in_order() {
    let mut target = sample_curve();
    apply_curve(&mut target, &edit("gpu", &[(40.0, 70), (20.0, 250), (40.0, 60)])).unwrap();
    assert_eq!(target.temp_source, TempSource::Gpu);
    assert_eq!(
        target.points,
        vec![
            CurvePoint { temp_mdeg: c(20.0), duty_pct: 100 },
            CurvePoint { temp_mdeg: c(40.0), duty_pct: 70 },
            CurvePoint { temp_mdeg: c(40.0), duty_pct: 60 },
        ]
    );
}

#[test]
fn sort_is_stable() {
    let pts = vec![
        CurvePoint { temp_mdeg: 3, duty_pct: 1 },
        CurvePoint { temp_mdeg: 1, duty_pct: 2 },
        CurvePoint { temp_mdeg: 3, duty_pct: 3 },
        CurvePoint { temp_mdeg: 2, duty_pct: 4 },
        CurvePoint { temp_mdeg: 1, duty_pct: 5 },
    ];
    let out: Vec<(i32, u8)> = sort_by_temp(&pts).iter().map(|p| (p.temp_mdeg, p.duty_pct)).collect();
    assert_eq!(out, vec![(1, 2), (1, 5), (2, 4), (3, 1), (3, 3)]);
}

#[test]
fn mode_strings_round_trip() {
    for m in [Mode::Performance, Mode::Silent, Mode::Auto] {
        assert_eq!(parse_mode(source_mode_str(m)), Some(m));
    }
    assert_eq!(parse_mode("bogus"), None);
}

#[test]
fn temp_source_strings_round_trip() {
    for s in [TempSource::Liquid, TempSource::Cpu, TempSource::Gpu] {
        assert_eq!(parse_temp_source(temp_source_str(s)), Some(s));
    }
    assert_eq!(parse_temp_source("bogus"), None);
}

#[test]
fn apply_edits_reports_the_first_problem() {
    let cfg = Config {
        hwmon: HwmonPaths { device_name: "kraken2023elite".into() },
        mode: ModeConfig::default(),
        pump_curve: sample_curve(),
        fan_curve: sample_curve(),
        poll_interval_ms: 1000,
        lcd: LcdConfig::default(),
    };
    let good = edit("liquid", &[(20.0, 30)]);
    let bad = edit("liquid", &[]);
    assert_eq!(apply_edits(cfg.clone(), "turbo", &bad, &bad).unwrap_err(), "Unknown mode: turbo");
    assert_eq!(
        apply_edits(cfg.clone(), "silent", &edit("x", &[(1.0, 1)]), &bad).unwrap_err(),
        "Unknown temp source: x"
    );
    assert_eq!(
        apply_edits(cfg.clone(), "silent", &good, &bad).unwrap_err(),
        "A curve must have at least one point"
    );
    let out = apply_edits(cfg, "silent", &good, &edit("gpu", &[(50.0, 80), (30.0, 40)])).unwrap();
    assert_eq!(out.mode.active, Mode::Silent);
    assert_eq!(out.hwmon.device_name, "kraken2023elite");
    assert_eq!(out.pump_curve.temp_source, TempSource::Liquid);
    assert_eq!(out.fan_curve.temp_source, TempSource::Gpu);
    assert_eq!(out.fan_curve.points[0].temp_mdeg, c(30.0));
}

#[test]
fn display_formatting() {
    assert_eq!(fmt_temp(Some(29_100)), "29.1 \u{b0}C");
    assert_eq!(fmt_temp(Some(29_149)), "29.1 \u{b0}C");
    assert_eq!(fmt_temp(Some(29_160)), "29.2 \u{b0}C");
    assert_eq!(fmt_temp(Some(5)), "0.0 \u{b0}C");
    assert_eq!(fmt_temp(Some(-1_260)), "-1.3 \u{b0}C");
    assert_eq!(fmt_temp(Some(29_150)), "29.1 \u{b0}C");
    assert_eq!(fmt_temp(Some(29_250)), "29.2 \u{b0}C");
    assert_eq!(fmt_temp(Some(29_750)), "29.8 \u{b0}C");
    assert_eq!(fmt_temp(Some(-40)), "-0.0 \u{b0}C");
    assert_eq!(fmt_temp(None), "-- \u{b0}C");
    assert_eq!(fmt_rpm(Some(1200)), "1200 rpm");
    assert_eq!(fmt_rpm(None), "-- rpm");
    assert_eq!(fmt_pct(Some(40)), "40%");
    assert_eq!(fmt_pct(None), "--%");
    assert_eq!(fmt_channel_status(Some(2400), Some(100)), "2400 rpm (100%)");
    assert_eq!(fmt_channel_status(None, None), "-- rpm (--%)");
}

#[test]
fn save_status_lines() {
    assert_eq!(save_status(None, None), "Saved and reloaded.");
    assert_eq!(save_status(None, Some("boom".into())), "Saved, but daemon reload failed: boom");
    assert_eq!(save_status(Some("disk full".into()), None), "Save failed: disk full");
}

#[test]
fn empty_curves_json_names_both_curves() {
    assert_eq!(
        empty_curves_json(),
        r#"{"pump":{"temp_source":"liquid","points":[]},"fan":{"temp_source":"liquid","points":[]}}"#
    );
}

fn shown_as_f32(m: i32) -> String {
    format!("{:.1} \u{b0}C", m as f32 / 1000.0)
}

#[test]
fn temperatures_show_as_their_f32_degrees_would() {
    for m in -200_000..=200_000 {
        assert_eq!(fmt_temp(Some(m)), shown_as_f32(m), "millidegrees {}", m);
    }
    let mut m: i64 = i32::MIN as i64;
    while m <= i32::MAX as i64 {
        let v = m as i32;
        assert_eq!(fmt_temp(Some(v)), shown_as_f32(v), "millidegrees {}", v);
        m += 65_521;
    }
    for v in [
        i32::MIN,
        i32::MIN + 1,
        i32::MAX,
        16_777_215,
        16_777_216,
        16_777_217,
        16_777_250,
        -16_777_250,
        33_554_435,
        1_073_741_950,
    ] {
        assert_eq!(fmt_temp(Some(v)), shown_as_f32(v), "millidegrees {}", v);
    }
}

#[test]
fn live_view_follows_the_daemon_and_keeps_readings_on_failure() {
    let v = LiveView::unknown();
    assert_eq!(v.liquid_temp, "-- \u{b0}C");
    assert_eq!(v.pump_status, "-- rpm (--%)");
    assert!(!v.failsafe_active);
    assert_eq!(v.daemon_error, "");
    let mut s = LiveState::empty();
    s.liquid_temp_mdeg = Some(29_100);
    s.pump_rpm = Some(2400);
    s.pump_duty_pct = Some(100);
    s.failsafe_active = true;
    let v = v.refreshed(Err("stale".to_string()));
    assert_eq!(v.daemon_error, "stale");
    let v = v.refreshed(Ok(s));
    assert_eq!(v.liquid_temp, "29.1 \u{b0}C");
    assert_eq!(v.cpu_temp, "-- \u{b0}C");
    assert_eq!(v.pump_status, "2400 rpm (100%)");
    assert_eq!(v.fan_status, "-- rpm (--%)");
    assert!(v.failsafe_active);
    assert_eq!(v.daemon_error, "");
    let v = v.refreshed(Err("connection refused".to_string()));
    assert_eq!(v.liquid_temp, "29.1 \u{b0}C");
    assert_eq!(v.pump_status, "2400 rpm (100%)");
    assert!(v.failsafe_active);
    assert_eq!(v.daemon_error, "connection refused");
}

#[test]
fn editor_after_load_shows_the_config_or_the_failure() {
    let v = editor_after_load(Ok((Mode::Silent, "{}".to_string())));
    assert_eq!(v.mode, "silent");
    assert_eq!(v.curves_json, "{}");
    assert_eq!(v.status_message, "");
    let v = editor_after_load(Err("no such file".to_string()));
    assert_eq!(v.mode, "auto");
    assert_eq!(v.curves_json, empty_curves_json());
    assert_eq!(v.status_message, "Failed to load config: no such file");
}

#[test]
fn save_refusals_in_order() {
    assert_eq!(
        save_refusal(false, "bogus", Some("eof".to_string())).as_deref(),
        Some("Cannot save: config was never loaded successfully")
    );
    assert_eq!(save_refusal(true, "bogus", Some("eof".to_string())).as_deref(), Some("Unknown mode: bogus"));
    assert_eq!(save_refusal(true, "auto", Some("eof".to_string())).as_deref(), Some("Invalid curve data: eof"));
    assert_eq!(save_refusal(true, "performance", None), None);
}
