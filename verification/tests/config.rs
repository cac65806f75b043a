use nzxt_ctl::config::{
    default_failsafe_temp, default_silent_duty, ChannelCurve, Config, ConfigError, CurveError,
    CurvePoint, HwmonPaths, LcdConfig, Mode, ModeConfig, TempSource,
};

fn c(deg: f32) -> i32 {
    (deg * 1000.0).round() as i32
}

fn curve(source: TempSource, points: &[(f32, u8)]) -> ChannelCurve {
    ChannelCurve {
        temp_source: source,
        points: points.iter().map(|&(t, d)| CurvePoint { temp_mdeg: c(t), duty_pct: d }).collect(),
    }
}

fn config_with_failsafe(failsafe_temp_c: f32) -> Config {
    Config {
        hwmon: HwmonPaths { device_name: "kraken2023elite".to_string() },
        mode: ModeConfig {
            active: Mode::Auto,
            silent_duty_pct: 40,
            failsafe_temp_mdeg: c(failsafe_temp_c),
        },
        pump_curve: curve(TempSource::Liquid, &[(20.0, 50), (55.0, 100)]),
        fan_curve: curve(TempSource::Liquid, &[(20.0, 30), (55.0, 100)]),
        poll_interval_ms: 1000,
        lcd: LcdConfig::default(),
    }
}

#[test]
fn load_rejects_failsafe_temp_below_40c() {
    let cfg = config_with_failsafe(6.0); // plausible typo for 60.0
    let err = cfg.validate().unwrap_err();
    assert!(err.message().contains("suspiciously low"));
}

#[test]
fn load_accepts_failsafe_temp_at_or_above_40c() {
    let cfg = config_with_failsafe(60.0);
    cfg.validate().unwrap();
    assert_eq!(cfg.mode.failsafe_temp_mdeg, c(60.0));
}

#[test]
fn failsafe_floor_is_exactly_40c() {
    assert!(config_with_failsafe(40.0).validate().is_ok());
    assert_eq!(
        config_with_failsafe(39.999).validate().unwrap_err(),
        ConfigError::FailsafeTooLow { failsafe_temp_mdeg: 39_999 }
    );
}

#[test]
fn failsafe_message_names_the_value() {
    let err = config_with_failsafe(6.5).validate().unwrap_err();
    assert_eq!(
        err.message(),
        "mode.failsafe_temp_c=6.5 is suspiciously low (min allowed: 40.0) - refusing to load, this would make the safety override fire during normal operation"
    );
}

#[test]
fn duty_follows_the_curve() {
    let cv = curve(TempSource::Liquid, &[(20.0, 50), (60.0, 100)]);
    assert_eq!(cv.duty_for_temp(c(10.0)), 50);
    assert_eq!(cv.duty_for_temp(c(20.0)), 50);
    assert_eq!(cv.duty_for_temp(c(40.0)), 75);
    assert_eq!(cv.duty_for_temp(c(41.0)), 76);
    assert_eq!(cv.duty_for_temp(c(60.0)), 100);
    assert_eq!(cv.duty_for_temp(c(95.0)), 100);
}

#[test]
fn empty_curve_fails_safe_to_full_duty() {
    let cv = curve(TempSource::Liquid, &[]);
    assert_eq!(cv.duty_for_temp(c(30.0)), 100);
}

#[test]
fn duty_rounds_halves_up() {
    let cv = curve(TempSource::Liquid, &[(20.0, 0), (30.0, 1)]);
    assert_eq!(cv.duty_for_temp(c(24.999)), 0);
    assert_eq!(cv.duty_for_temp(c(25.0)), 1);
}

#[test]
fn duty_on_a_three_point_curve_uses_the_bracketing_pair() {
    let cv = curve(TempSource::Liquid, &[(20.0, 30), (40.0, 50), (60.0, 100)]);
    assert_eq!(cv.duty_for_temp(c(30.0)), 40);
    assert_eq!(cv.duty_for_temp(c(40.0)), 50);
    assert_eq!(cv.duty_for_temp(c(50.0)), 75);
}

#[test]
fn duty_on_a_falling_segment_still_interpolates() {
    let cv = curve(TempSource::Liquid, &[(20.0, 80), (40.0, 40)]);
    assert_eq!(cv.duty_for_temp(c(30.0)), 60);
}

#[test]
fn unsorted_curve_uses_the_first_bracketing_pair() {
    let cv = curve(TempSource::Liquid, &[(20.0, 30), (60.0, 50), (40.0, 90)]);
    assert_eq!(cv.duty_for_temp(c(30.0)), 35);
    let cv = curve(TempSource::Liquid, &[(20.0, 30), (10.0, 50), (40.0, 90)]);
    assert_eq!(cv.duty_for_temp(c(30.0)), 77);
}

#[test]
fn validate_reports_the_first_bad_point() {
    assert_eq!(curve(TempSource::Liquid, &[]).validate(), Err(CurveError::NoPoints));
    assert_eq!(
        curve(TempSource::Liquid, &[(20.0, 101), (200.0, 50)]).validate(),
        Err(CurveError::DutyTooHigh { duty_pct: 101 })
    );
    assert_eq!(
        curve(TempSource::Liquid, &[(-1.5, 50), (20.0, 150)]).validate(),
        Err(CurveError::TempOutOfRange { temp_mdeg: -1500 })
    );
    assert_eq!(curve(TempSource::Liquid, &[(0.0, 0), (150.0, 100)]).validate(), Ok(()));
    assert_eq!(
        curve(TempSource::Liquid, &[(40.0, 80), (60.0, 20)]).validate(),
        Err(CurveError::DutyDrops { from_pct: 80, from_mdeg: 40_000, to_pct: 20, to_mdeg: 60_000 })
    );
}

#[test]
fn validate_refuses_unsorted_points() {
    assert_eq!(
        curve(TempSource::Liquid, &[(55.0, 100), (20.0, 50)]).validate(),
        Err(CurveError::Unsorted { before_mdeg: 55_000, temp_mdeg: 20_000 })
    );
    // A point's range is checked before the order of the points.
    assert_eq!(
        curve(TempSource::Liquid, &[(55.0, 100), (20.0, 50), (30.0, 101)]).validate(),
        Err(CurveError::DutyTooHigh { duty_pct: 101 })
    );
    // The first faulty step is reported.
    assert_eq!(
        curve(TempSource::Liquid, &[(20.0, 50), (30.0, 40), (25.0, 60)]).validate(),
        Err(CurveError::DutyDrops { from_pct: 50, from_mdeg: 20_000, to_pct: 40, to_mdeg: 30_000 })
    );
}

#[test]
fn validate_accepts_flat_steps_and_refuses_a_drop_at_equal_temperature() {
    assert_eq!(curve(TempSource::Liquid, &[(20.0, 50), (20.0, 50), (40.0, 50)]).validate(), Ok(()));
    assert_eq!(curve(TempSource::Liquid, &[(20.0, 30), (20.0, 60), (40.0, 90)]).validate(), Ok(()));
    assert_eq!(
        curve(TempSource::Liquid, &[(20.0, 60), (20.0, 30), (40.0, 90)]).validate(),
        Err(CurveError::DutyDrops { from_pct: 60, from_mdeg: 20_000, to_pct: 30, to_mdeg: 20_000 })
    );
}

#[test]
fn curve_error_messages() {
    assert_eq!(CurveError::NoPoints.message(), "curve has no points");
    assert_eq!(
        CurveError::TempOutOfRange { temp_mdeg: 150_500 }.message(),
        "curve point temp_c=150.5 out of sane range"
    );
    assert_eq!(
        CurveError::TempOutOfRange { temp_mdeg: -1_250 }.message(),
        "curve point temp_c=-1.25 out of sane range"
    );
    assert_eq!(
        CurveError::DutyTooHigh { duty_pct: 120 }.message(),
        "curve point duty_pct=120 exceeds 100"
    );
    assert_eq!(
        CurveError::Unsorted { before_mdeg: 55_000, temp_mdeg: 20_500 }.message(),
        "curve points must be sorted ascending by temp_c: temp_c=20.5 follows temp_c=55"
    );
    assert_eq!(
        CurveError::DutyDrops { from_pct: 80, from_mdeg: 40_000, to_pct: 20, to_mdeg: 60_250 }.message(),
        "curve is non-monotonic: duty drops from 80% at 40C to 20% at 60.25C"
    );
}

#[test]
fn config_validation_checks_pump_then_fan() {
    let mut cfg = config_with_failsafe(60.0);
    cfg.fan_curve = curve(TempSource::Liquid, &[(20.0, 120)]);
    assert_eq!(cfg.validate(), Err(ConfigError::Curve(CurveError::DutyTooHigh { duty_pct: 120 })));
    cfg.pump_curve = curve(TempSource::Liquid, &[]);
    assert_eq!(cfg.validate(), Err(ConfigError::Curve(CurveError::NoPoints)));
}

#[test]
fn defaults_match_the_documented_ones() {
    assert_eq!(Mode::default(), Mode::Auto);
    assert_eq!(TempSource::default(), TempSource::Liquid);
    assert_eq!(default_silent_duty(), 40);
    assert_eq!(default_failsafe_temp(), 60_000);
    let m = ModeConfig::default();
    assert_eq!((m.active, m.silent_duty_pct, m.failsafe_temp_mdeg), (Mode::Auto, 40, 60_000));
    let l = LcdConfig::default();
    assert!(!l.enabled);
    assert_eq!(l.source, TempSource::Liquid);
    assert_eq!(Config::default_path(), "/etc/nzxt-ctl/config.toml");
}

#[test]
fn mode_labels() {
    assert_eq!(Mode::Performance.label(), "Performance");
    assert_eq!(Mode::Silent.label(), "Silent");
    assert_eq!(Mode::Auto.label(), "Auto");
}


#[test]
fn a_validated_curve_never_cools_less_when_hotter() {
    let cv = curve(
        TempSource::Liquid,
        &[(20.0, 30), (35.0, 30), (50.0, 70), (50.0, 80), (70.0, 100)],
    );
    assert_eq!(cv.validate(), Ok(()));
    let mut prev = 0u8;
    let mut t = -10_000;
    while t <= 90_000 {
        let d = cv.duty_for_temp(t);
        assert!(d >= prev, "duty fell at {} millidegrees", t);
        assert!((30..=100).contains(&d));
        prev = d;
        t += 7;
    }
}
