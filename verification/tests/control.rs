use nzxt_ctl::config::{ChannelCurve, Config, CurvePoint, HwmonPaths, LcdConfig, Mode, ModeConfig, TempSource};
use nzxt_ctl::control::{decide_duty, failsafe_triggered, lcd_sync_action, ControlState, LcdSync, Readings};

fn c(deg: f32) -> i32 {
    (deg * 1000.0).round() as i32
}

fn curve(source: TempSource, points: &[(f32, u8)]) -> ChannelCurve {
    ChannelCurve {
        temp_source: source,
        points: points.iter().map(|&(t, d)| CurvePoint { temp_mdeg: c(t), duty_pct: d }).collect(),
    }
}

fn default_curves() -> (ChannelCurve, ChannelCurve) {
    (
        curve(TempSource::Liquid, &[(20.0, 50), (55.0, 100)]),
        curve(TempSource::Liquid, &[(20.0, 30), (55.0, 100)]),
    )
}

#[test]
fn performance_mode_always_full_regardless_of_temps() {
    let (pump, fan) = default_curves();
    let result = decide_duty(Mode::Performance, false, 40, &pump, &fan, Some(c(20.0)), None, None);
    assert_eq!(result, (Some(100), Some(100)));
}

#[test]
fn silent_mode_uses_fixed_duty_for_both_channels() {
    let (pump, fan) = default_curves();
    let result = decide_duty(Mode::Silent, false, 35, &pump, &fan, Some(c(80.0)), None, None);
    assert_eq!(result, (Some(35), Some(35)));
}

#[test]
fn auto_mode_interpolates_each_curve_from_its_own_temp_source() {
    let pump = curve(TempSource::Liquid, &[(20.0, 50), (60.0, 100)]);
    let fan = curve(TempSource::Cpu, &[(20.0, 30), (60.0, 100)]);
    let result = decide_duty(Mode::Auto, false, 40, &pump, &fan, Some(c(20.0)), Some(c(60.0)), None);
    assert_eq!(result, (Some(50), Some(100)));
}

#[test]
fn auto_mode_keeps_last_duty_when_selected_source_unavailable() {
    let pump = curve(TempSource::Gpu, &[(20.0, 50), (60.0, 100)]);
    let fan = curve(TempSource::Liquid, &[(20.0, 30), (60.0, 100)]);
    let result = decide_duty(Mode::Auto, false, 40, &pump, &fan, Some(c(30.0)), None, None);
    assert_eq!(result.0, None);
    assert!(result.1.is_some());
}

#[test]
fn failsafe_overrides_every_mode_including_silent() {
    let (pump, fan) = default_curves();
    for mode in [Mode::Performance, Mode::Silent, Mode::Auto] {
        let result = decide_duty(mode, true, 10, &pump, &fan, Some(c(65.0)), None, None);
        assert_eq!(result, (Some(100), Some(100)), "mode={:?}", mode);
    }
}

#[test]
fn auto_mode_interpolates_between_points() {
    let pump = curve(TempSource::Liquid, &[(20.0, 50), (60.0, 100)]);
    let fan = curve(TempSource::Cpu, &[(20.0, 30), (60.0, 100)]);
    let result = decide_duty(Mode::Auto, false, 40, &pump, &fan, Some(c(40.0)), Some(c(30.0)), None);
    assert_eq!(result, (Some(75), Some(48)));
}

#[test]
fn failsafe_fires_at_and_above_the_ceiling_on_liquid_only() {
    assert!(failsafe_triggered(Some(60_000), 60_000));
    assert!(failsafe_triggered(Some(75_500), 60_000));
    assert!(!failsafe_triggered(Some(59_999), 60_000));
    assert!(!failsafe_triggered(None, 60_000));
}

fn config(mode: Mode) -> Config {
    let (pump, fan) = default_curves();
    Config {
        hwmon: HwmonPaths { device_name: "kraken2023elite".to_string() },
        mode: ModeConfig { active: mode, silent_duty_pct: 40, failsafe_temp_mdeg: 60_000 },
        pump_curve: pump,
        fan_curve: fan,
        poll_interval_ms: 1000,
        lcd: LcdConfig { enabled: false, source: TempSource::Liquid },
    }
}

#[test]
fn cycle_with_hot_coolant_forces_full_duty_in_silent_mode() {
    let cfg = config(Mode::Silent);
    let state = ControlState::new();
    let r = Readings { liquid_mdeg: Some(61_000), cpu_mdeg: None, gpu_mdeg: None };
    let plan = state.plan(&cfg, &r);
    assert!(plan.failsafe);
    assert_eq!((plan.pump_duty, plan.fan_duty), (Some(100), Some(100)));
    assert_eq!((plan.pump_write, plan.fan_write), (Some(100), Some(100)));
}

#[test]
fn applied_duties_are_not_rewritten_until_they_change() {
    let cfg = config(Mode::Silent);
    let mut state = ControlState::new();
    let r = Readings { liquid_mdeg: Some(30_000), cpu_mdeg: None, gpu_mdeg: None };
    let plan = state.plan(&cfg, &r);
    assert_eq!((plan.pump_write, plan.fan_write), (Some(40), Some(40)));
    state.record_pump_write(40, true);
    state.record_fan_write(40, false);
    let plan = state.plan(&cfg, &r);
    assert_eq!((plan.pump_write, plan.fan_write), (None, Some(40)));
    state.record_fan_write(40, true);
    let plan = state.plan(&cfg, &r);
    assert_eq!((plan.pump_write, plan.fan_write), (None, None));
    state.config_reloaded();
    let plan = state.plan(&cfg, &r);
    assert_eq!((plan.pump_write, plan.fan_write), (Some(40), Some(40)));
}

#[test]
fn live_state_reports_applied_duties_and_mode() {
    let cfg = config(Mode::Performance);
    let mut state = ControlState::new();
    let r = Readings { liquid_mdeg: Some(29_100), cpu_mdeg: Some(45_000), gpu_mdeg: None };
    let plan = state.plan(&cfg, &r);
    state.record_pump_write(100, true);
    let s = state.live_state(&cfg, &r, &plan, Some(2400), None);
    assert_eq!(s.liquid_temp_mdeg, Some(29_100));
    assert_eq!(s.cpu_temp_mdeg, Some(45_000));
    assert_eq!(s.pump_rpm, Some(2400));
    assert_eq!(s.pump_duty_pct, Some(100));
    assert_eq!(s.fan_duty_pct, None);
    assert_eq!(s.active_mode.as_deref(), Some("Performance"));
    assert!(!s.failsafe_active);
}

#[test]
fn gauge_frame_skips_unchanged_whole_degrees() {
    let mut state = ControlState::new();
    let r = Readings { liquid_mdeg: Some(41_200), cpu_mdeg: None, gpu_mdeg: None };
    let frame = state.gauge_frame(TempSource::Liquid, &r).unwrap();
    assert_eq!(frame.temp_udeg, Some(41_200_000));
    assert_eq!(frame.key.whole_deg, Some(41));
    state.gauge_rendered(frame.key);
    let r = Readings { liquid_mdeg: Some(41_400), cpu_mdeg: None, gpu_mdeg: None };
    assert!(state.gauge_frame(TempSource::Liquid, &r).is_none());
    let r = Readings { liquid_mdeg: Some(45_000), cpu_mdeg: None, gpu_mdeg: None };
    let frame = state.gauge_frame(TempSource::Liquid, &r).unwrap();
    assert_eq!(frame.temp_udeg, Some(42_382_000));
}

#[test]
fn lcd_sync_opens_releases_or_keeps() {
    assert_eq!(lcd_sync_action(true, false), LcdSync::Open);
    assert_eq!(lcd_sync_action(false, true), LcdSync::Release);
    assert_eq!(lcd_sync_action(true, true), LcdSync::Keep);
    assert_eq!(lcd_sync_action(false, false), LcdSync::Keep);
}
