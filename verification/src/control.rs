//! Per-cycle control decisions: which duty each channel gets, when the
//! failsafe overrides the mode, which writes a cycle actually needs, what
//! clients are told, and when the LCD gauge needs a new frame.

use crate::config::{
    curve_duty, mode_label, round_half_away, ChannelCurve, Config, CurvePoint, Mode, TempSource,
};
use crate::ipc::LiveState;
use crate::smoothing::{smoothed, Smoother};
use vstd::prelude::*;

verus! {

/// The reading a curve with source `source` reacts to.
pub open spec fn pick_temp(
    source: TempSource,
    liquid: Option<i32>,
    cpu: Option<i32>,
    gpu: Option<i32>,
) -> Option<i32> {
    match source {
        TempSource::Liquid => liquid,
        TempSource::Cpu => cpu,
        TempSource::Gpu => gpu,
    }
}

/// A channel's duty from its curve, or `None` when its reading is missing.
pub open spec fn curve_channel(pts: Seq<CurvePoint>, temp: Option<i32>) -> Option<u8> {
    match temp {
        Some(t) => Some(curve_duty(pts, t as int) as u8),
        None => None,
    }
}

/// The (pump, fan) duties for one cycle; `None` for a channel means "keep
/// the last duty".
pub open spec fn duty_decision(
    mode: Mode,
    failsafe_triggered: bool,
    silent_duty_pct: u8,
    pump: Seq<CurvePoint>,
    pump_source: TempSource,
    fan: Seq<CurvePoint>,
    fan_source: TempSource,
    liquid: Option<i32>,
    cpu: Option<i32>,
    gpu: Option<i32>,
) -> (Option<u8>, Option<u8>) {
    if failsafe_triggered {
        (Some(100u8), Some(100u8))
    } else {
        match mode {
            Mode::Performance => (Some(100u8), Some(100u8)),
            Mode::Silent => (Some(silent_duty_pct), Some(silent_duty_pct)),
            Mode::Auto => (
                curve_channel(pump, pick_temp(pump_source, liquid, cpu, gpu)),
                curve_channel(fan, pick_temp(fan_source, liquid, cpu, gpu)),
            ),
        }
    }
}

fn pick(source: TempSource, liquid: Option<i32>, cpu: Option<i32>, gpu: Option<i32>) -> (r:
    Option<i32>)
    ensures
        r == pick_temp(source, liquid, cpu, gpu),
{
    match source {
        TempSource::Liquid => liquid,
        TempSource::Cpu => cpu,
        TempSource::Gpu => gpu,
    }
}

fn channel(curve: &ChannelCurve, temp: Option<i32>) -> (r: Option<u8>)
    ensures
        r == curve_channel(curve.points@, temp),
{
    match temp {
        Some(t) => Some(curve.duty_for_temp(t)),
        None => None,
    }
}

/// Given the active mode, whether the safety failsafe fired this cycle and
/// the latest readings, returns the (pump, fan) duties to apply. `None` for
/// a channel means its curve's temperature source is unavailable this cycle
/// and the last duty is kept; another reading is never substituted.
pub fn decide_duty(
    mode: Mode,
    failsafe_triggered: bool,
    silent_duty_pct: u8,
    pump_curve: &ChannelCurve,
    fan_curve: &ChannelCurve,
    liquid: Option<i32>,
    cpu: Option<i32>,
    gpu: Option<i32>,
) -> (r: (Option<u8>, Option<u8>))
    ensures
        r == duty_decision(
            mode,
            failsafe_triggered,
            silent_duty_pct,
            pump_curve.points@,
            pump_curve.temp_source,
            fan_curve.points@,
            fan_curve.temp_source,
            liquid,
            cpu,
            gpu,
        ),
        failsafe_triggered ==> r == (Some(100u8), Some(100u8)),
{
    if failsafe_triggered {
        return (Some(100), Some(100));
    }
    match mode {
        Mode::Performance => (Some(100), Some(100)),
        Mode::Silent => (Some(silent_duty_pct), Some(silent_duty_pct)),
        Mode::Auto => {
            let p = channel(pump_curve, pick(pump_curve.temp_source, liquid, cpu, gpu));
            let f = channel(fan_curve, pick(fan_curve.temp_source, liquid, cpu, gpu));
            (p, f)
        },
    }
}

/// The failsafe fires when the liquid temperature is known and at or above
/// the ceiling. Only the liquid reading counts, never CPU or GPU.
pub open spec fn failsafe_fires(liquid: Option<i32>, ceiling_mdeg: i32) -> bool {
    liquid matches Some(t) && t >= ceiling_mdeg
}

/// Whether the safety failsafe overrides the mode this cycle.
pub fn failsafe_triggered(liquid: Option<i32>, ceiling_mdeg: i32) -> (b: bool)
    ensures
        b == failsafe_fires(liquid, ceiling_mdeg),
{
    match liquid {
        Some(t) => t >= ceiling_mdeg,
        None => false,
    }
}

/// One cycle's temperature readings, in millidegrees Celsius; `None` when a
/// sensor could not be read.
#[derive(Clone, Copy, Debug)]
pub struct Readings {
    pub liquid_mdeg: Option<i32>,
    pub cpu_mdeg: Option<i32>,
    pub gpu_mdeg: Option<i32>,
}

/// What one control cycle decided.
#[derive(Clone, Copy, Debug)]
pub struct CyclePlan {
    /// The failsafe overrides the mode this cycle.
    pub failsafe: bool,
    /// The decided duties; `None` keeps the last one.
    pub pump_duty: Option<u8>,
    pub fan_duty: Option<u8>,
    /// The duties to write to the hardware: decided and different from the
    /// last one applied.
    pub pump_write: Option<u8>,
    pub fan_write: Option<u8>,
}

/// The write a channel needs: its decided duty, unless that is already the
/// last duty applied.
pub open spec fn write_needed(decided: Option<u8>, last: Option<u8>) -> Option<u8> {
    match decided {
        Some(d) => if last == Some(d) {
            None
        } else {
            Some(d)
        },
        None => None,
    }
}

fn needed(decided: Option<u8>, last: Option<u8>) -> (r: Option<u8>)
    ensures
        r == write_needed(decided, last),
{
    match decided {
        Some(d) => match last {
            Some(l) => if l == d {
                None
            } else {
                Some(d)
            },
            None => Some(d),
        },
        None => None,
    }
}

/// Whole degrees a microdegree value shows as, halves away from zero.
pub open spec fn whole_degrees(u: int) -> int {
    round_half_away(u, 1_000_000)
}

/// Rounds a microdegree value to whole degrees, halves away from zero.
pub fn round_to_degrees(u: i64) -> (d: i64)
    ensures
        d == whole_degrees(u as int),
{
    let v = u as i128;
    if v >= 0 {
        let q: i128 = (2 * v + 1_000_000) / 2_000_000;
        assert(0 <= q <= v || q == 0) by (nonlinear_arith)
            requires
                q == (2 * v + 1_000_000) / 2_000_000,
                v >= 0,
        ;
        q as i64
    } else {
        let q: i128 = (-2 * v + 1_000_000) / 2_000_000;
        assert(0 <= q <= -v) by (nonlinear_arith)
            requires
                q == (-2 * v + 1_000_000) / 2_000_000,
                v < 0,
        ;
        (0 - q) as i64
    }
}

/// What a rendered gauge frame showed, at the precision it displays.
#[derive(Clone, Copy, Debug, PartialEq, Eq, Structural)]
pub struct GaugeKey {
    pub source: TempSource,
    pub whole_deg: Option<i64>,
}

/// A gauge frame to render: the source and the smoothed reading to show,
/// in microdegrees, and the key to record once the frame is on the panel.
#[derive(Clone, Copy, Debug)]
pub struct GaugeFrame {
    pub source: TempSource,
    pub temp_udeg: Option<i64>,
    pub key: GaugeKey,
}

pub open spec fn gauge_key(source: TempSource, temp: Option<i64>) -> GaugeKey {
    GaugeKey {
        source,
        whole_deg: match temp {
            Some(t) => Some(whole_degrees(t as int) as i64),
            None => None,
        },
    }
}

/// The key of a frame showing `temp` (microdegrees) for `source`.
pub fn gauge_key_of(source: TempSource, temp: Option<i64>) -> (k: GaugeKey)
    ensures
        k == gauge_key(source, temp),
{
    GaugeKey {
        source,
        whole_deg: match temp {
            Some(t) => Some(round_to_degrees(t)),
            None => None,
        },
    }
}

fn same_key(a: Option<GaugeKey>, b: GaugeKey) -> (r: bool)
    ensures
        r == (a == Some(b)),
{
    match a {
        Some(k) => k == b,
        None => false,
    }
}

/// What the control loop remembers from one cycle to the next.
#[derive(Debug)]
pub struct ControlState {
    /// Duty last applied to each channel, if any.
    pub last_pump_duty: Option<u8>,
    pub last_fan_duty: Option<u8>,
    /// Smoothed reading shown on the LCD gauge.
    pub lcd_smoother: Smoother,
    /// What the gauge last showed, at display precision.
    pub last_rendered: Option<GaugeKey>,
}

/// The plan a cycle makes from this state, configuration and readings.
pub open spec fn cycle_plan(
    last_pump: Option<u8>,
    last_fan: Option<u8>,
    cfg: Config,
    r: Readings,
) -> (bool, Option<u8>, Option<u8>, Option<u8>, Option<u8>) {
    let failsafe = failsafe_fires(r.liquid_mdeg, cfg.mode.failsafe_temp_mdeg);
    let (p, f) = duty_decision(
        cfg.mode.active,
        failsafe,
        cfg.mode.silent_duty_pct,
        cfg.pump_curve.points@,
        cfg.pump_curve.temp_source,
        cfg.fan_curve.points@,
        cfg.fan_curve.temp_source,
        r.liquid_mdeg,
        r.cpu_mdeg,
        r.gpu_mdeg,
    );
    (failsafe, p, f, write_needed(p, last_pump), write_needed(f, last_fan))
}

pub open spec fn plan_tuple(p: CyclePlan) -> (bool, Option<u8>, Option<u8>, Option<u8>, Option<u8>) {
    (p.failsafe, p.pump_duty, p.fan_duty, p.pump_write, p.fan_write)
}

/// Weight of each new reading in the gauge's moving average, in thousandths.
pub const GAUGE_SMOOTHING_PERMILLE: u32 = 300;

impl ControlState {
    /// The state at startup: nothing applied yet, nothing on the gauge.
    pub fn new() -> (s: Self)
        ensures
            s.last_pump_duty is None,
            s.last_fan_duty is None,
            s.lcd_smoother.current() is None,
            s.lcd_smoother.alpha() == GAUGE_SMOOTHING_PERMILLE,
            s.last_rendered is None,
    {
        ControlState {
            last_pump_duty: None,
            last_fan_duty: None,
            lcd_smoother: Smoother::new(GAUGE_SMOOTHING_PERMILLE),
            last_rendered: None,
        }
    }

    /// Decides one cycle: whether the failsafe fires (liquid at or above the
    /// configured ceiling), the duty of each channel, and which of them need
    /// writing because they differ from the last duty applied.
    pub fn plan(&self, cfg: &Config, r: &Readings) -> (p: CyclePlan)
        ensures
            plan_tuple(p) == cycle_plan(self.last_pump_duty, self.last_fan_duty, *cfg, *r),
    {
        let failsafe = failsafe_triggered(r.liquid_mdeg, cfg.mode.failsafe_temp_mdeg);
        let (pump_duty, fan_duty) = decide_duty(
            cfg.mode.active,
            failsafe,
            cfg.mode.silent_duty_pct,
            &cfg.pump_curve,
            &cfg.fan_curve,
            r.liquid_mdeg,
            r.cpu_mdeg,
            r.gpu_mdeg,
        );
        CyclePlan {
            failsafe,
            pump_duty,
            fan_duty,
            pump_write: needed(pump_duty, self.last_pump_duty),
            fan_write: needed(fan_duty, self.last_fan_duty),
        }
    }

    /// Records the outcome of writing `duty` to the pump: a failed write
    /// leaves the last applied duty as it was, so it is retried next cycle.
    pub fn record_pump_write(&mut self, duty: u8, applied: bool)
        ensures
            final(self).last_pump_duty == (if applied {
                Some(duty)
            } else {
                old(self).last_pump_duty
            }),
            final(self).last_fan_duty == old(self).last_fan_duty,
            final(self).lcd_smoother == old(self).lcd_smoother,
            final(self).last_rendered == old(self).last_rendered,
    {
        if applied {
            self.last_pump_duty = Some(duty);
        }
    }

    /// Records the outcome of writing `duty` to the fan.
    pub fn record_fan_write(&mut self, duty: u8, applied: bool)
        ensures
            final(self).last_fan_duty == (if applied {
                Some(duty)
            } else {
                old(self).last_fan_duty
            }),
            final(self).last_pump_duty == old(self).last_pump_duty,
            final(self).lcd_smoother == old(self).lcd_smoother,
            final(self).last_rendered == old(self).last_rendered,
    {
        if applied {
            self.last_fan_duty = Some(duty);
        }
    }

    /// After a config reload the duties are re-applied even if unchanged,
    /// since the curves themselves may have changed, and the gauge starts over.
    pub fn config_reloaded(&mut self)
        ensures
            final(self).last_pump_duty is None,
            final(self).last_fan_duty is None,
            final(self).last_rendered is None,
            final(self).lcd_smoother.current() is None,
            final(self).lcd_smoother.alpha() == old(self).lcd_smoother.alpha(),
    {
        self.last_pump_duty = None;
        self.last_fan_duty = None;
        self.last_rendered = None;
        self.lcd_smoother.reset();
    }

    /// The state reported to clients after a cycle: the readings, the RPMs,
    /// the duties actually applied, the active mode's label and whether the
    /// failsafe fired.
    pub fn live_state(
        &self,
        cfg: &Config,
        r: &Readings,
        plan: &CyclePlan,
        pump_rpm: Option<u32>,
        fan_rpm: Option<u32>,
    ) -> (s: LiveState)
        ensures
            s.liquid_temp_mdeg == r.liquid_mdeg,
            s.cpu_temp_mdeg == r.cpu_mdeg,
            s.gpu_temp_mdeg == r.gpu_mdeg,
            s.pump_rpm == pump_rpm,
            s.fan_rpm == fan_rpm,
            s.pump_duty_pct == self.last_pump_duty,
            s.fan_duty_pct == self.last_fan_duty,
            s.active_mode matches Some(m) && m@ == mode_label(cfg.mode.active),
            s.failsafe_active == plan.failsafe,
    {
        LiveState {
            liquid_temp_mdeg: r.liquid_mdeg,
            cpu_temp_mdeg: r.cpu_mdeg,
            gpu_temp_mdeg: r.gpu_mdeg,
            pump_rpm,
            fan_rpm,
            pump_duty_pct: self.last_pump_duty,
            fan_duty_pct: self.last_fan_duty,
            active_mode: Some(String::from_str(cfg.mode.active.label())),
            failsafe_active: plan.failsafe,
        }
    }

    /// Feeds this cycle's reading for the gauge's source to its moving
    /// average and returns the frame to render, unless the panel already
    /// shows the same source and whole-degree value.
    pub fn gauge_frame(&mut self, source: TempSource, r: &Readings) -> (f: Option<GaugeFrame>)
        ensures
            final(self).last_pump_duty == old(self).last_pump_duty,
            final(self).last_fan_duty == old(self).last_fan_duty,
            final(self).last_rendered == old(self).last_rendered,
            final(self).lcd_smoother.alpha() == old(self).lcd_smoother.alpha(),
            ({
                let shown = pick_temp(source, r.liquid_mdeg, r.cpu_mdeg, r.gpu_mdeg);
                let v = final(self).lcd_smoother.current();
                &&& match smoothed(old(self).lcd_smoother.current(), shown, old(self).lcd_smoother.alpha()) {
                    Some(x) => v == Some(x as i64),
                    None => v is None,
                }
                &&& if old(self).last_rendered == Some(gauge_key(source, v)) {
                    f is None
                } else {
                    f == Some(GaugeFrame { source, temp_udeg: v, key: gauge_key(source, v) })
                }
            }),
    {
        let shown = pick(source, r.liquid_mdeg, r.cpu_mdeg, r.gpu_mdeg);
        let v = self.lcd_smoother.update(shown);
        let key = gauge_key_of(source, v);
        if same_key(self.last_rendered, key) {
            None
        } else {
            Some(GaugeFrame { source, temp_udeg: v, key })
        }
    }

    /// Records that a frame reached the panel.
    pub fn gauge_rendered(&mut self, key: GaugeKey)
        ensures
            final(self).last_rendered == Some(key),
            final(self).last_pump_duty == old(self).last_pump_duty,
            final(self).last_fan_duty == old(self).last_fan_duty,
            final(self).lcd_smoother == old(self).lcd_smoother,
    {
        self.last_rendered = Some(key);
    }
}

/// What keeping the LCD in line with the configuration takes.
#[derive(Clone, Copy, Debug, PartialEq, Eq, Structural)]
pub enum LcdSync {
    /// Enabled but not open: open the device.
    Open,
    /// Open but disabled: hand the panel back to its built-in screen.
    Release,
    /// Already as configured.
    Keep,
}

/// Brings the LCD in line with `enabled`, given whether it is open.
pub fn lcd_sync_action(enabled: bool, open: bool) -> (a: LcdSync)
    ensures
        a == (if enabled && !open {
            LcdSync::Open
        } else if !enabled && open {
            LcdSync::Release
        } else {
            LcdSync::Keep
        }),
{
    if enabled && !open {
        LcdSync::Open
    } else if !enabled && open {
        LcdSync::Release
    } else {
        LcdSync::Keep
    }
}


/// Safety failsafe: whenever the liquid temperature is known and at or
/// above the configured ceiling, a cycle drives both pump and fan at 100%,
/// whatever the mode and whatever the curves say.
pub proof fn lemma_failsafe_forces_full_duty(
    last_pump: Option<u8>,
    last_fan: Option<u8>,
    cfg: Config,
    r: Readings,
)
    requires
        r.liquid_mdeg matches Some(t) && t >= cfg.mode.failsafe_temp_mdeg,
    ensures
        ({
            let p = cycle_plan(last_pump, last_fan, cfg, r);
            p.0 && p.1 == Some(100u8) && p.2 == Some(100u8)
        }),
{
}

/// Below the ceiling, or with no liquid reading, the failsafe stays quiet
/// and the active mode decides.
pub proof fn lemma_no_failsafe_below_ceiling(
    last_pump: Option<u8>,
    last_fan: Option<u8>,
    cfg: Config,
    r: Readings,
)
    requires
        !(r.liquid_mdeg matches Some(t) && t >= cfg.mode.failsafe_temp_mdeg),
    ensures
        ({
            let p = cycle_plan(last_pump, last_fan, cfg, r);
            &&& !p.0
            &&& cfg.mode.active == Mode::Performance ==> p.1 == Some(100u8) && p.2 == Some(100u8)
            &&& cfg.mode.active == Mode::Silent ==> p.1 == Some(cfg.mode.silent_duty_pct) && p.2
                == Some(cfg.mode.silent_duty_pct)
        }),
{
}

/// A cycle writes a channel exactly when its decided duty differs from the
/// last one applied; once the planned writes have succeeded, the same
/// configuration and readings call for no further writes.
pub proof fn lemma_applied_plan_needs_no_rewrite(
    last_pump: Option<u8>,
    last_fan: Option<u8>,
    cfg: Config,
    r: Readings,
)
    ensures
        ({
            let p = cycle_plan(last_pump, last_fan, cfg, r);
            let next_pump = match p.3 {
                Some(d) => Some(d),
                None => last_pump,
            };
            let next_fan = match p.4 {
                Some(d) => Some(d),
                None => last_fan,
            };
            let q = cycle_plan(next_pump, next_fan, cfg, r);
            &&& q.3 is None
            &&& q.4 is None
            &&& q.1 == p.1
            &&& q.2 == p.2
        }),
{
}

/// With nothing applied yet (at startup or after a config reload), every
/// decided duty is written.
pub proof fn lemma_fresh_state_writes_every_decided_duty(cfg: Config, r: Readings)
    ensures
        ({
            let p = cycle_plan(None, None, cfg, r);
            p.3 == p.1 && p.4 == p.2
        }),
{
}

/// With a validated configuration, a cycle that is not in Silent mode never
/// decides a duty above 100%.
pub proof fn lemma_valid_config_duty_at_most_100(
    last_pump: Option<u8>,
    last_fan: Option<u8>,
    cfg: Config,
    r: Readings,
)
    requires
        crate::config::valid_config(cfg),
        cfg.mode.active != Mode::Silent || cfg.mode.silent_duty_pct <= 100,
    ensures
        ({
            let p = cycle_plan(last_pump, last_fan, cfg, r);
            &&& (p.1 matches Some(d) ==> d <= 100)
            &&& (p.2 matches Some(d) ==> d <= 100)
        }),
{
    let liquid = r.liquid_mdeg;
    let pt = pick_temp(cfg.pump_curve.temp_source, liquid, r.cpu_mdeg, r.gpu_mdeg);
    let ft = pick_temp(cfg.fan_curve.temp_source, liquid, r.cpu_mdeg, r.gpu_mdeg);
    if let Some(t) = pt {
        crate::config::lemma_valid_curve_duty_at_most_100(cfg.pump_curve.points@, t as int);
    }
    if let Some(t) = ft {
        crate::config::lemma_valid_curve_duty_at_most_100(cfg.fan_curve.points@, t as int);
    }
}

/// In Auto mode, with the failsafe quiet, each channel reads its own
/// curve's source and no other: a liquid curve the liquid reading, a CPU
/// curve the CPU reading, a GPU curve the GPU reading, whatever the other
/// two readings are. With that reading present the channel gets exactly
/// the duty its curve gives there, no more and no less; with it missing
/// the channel keeps its last duty.
pub proof fn lemma_auto_duty_reads_own_source(
    silent_duty_pct: u8,
    pump: Seq<CurvePoint>,
    pump_source: TempSource,
    fan: Seq<CurvePoint>,
    fan_source: TempSource,
    liquid: Option<i32>,
    cpu: Option<i32>,
    gpu: Option<i32>,
)
    ensures
        ({
            let r = duty_decision(
                Mode::Auto,
                false,
                silent_duty_pct,
                pump,
                pump_source,
                fan,
                fan_source,
                liquid,
                cpu,
                gpu,
            );
            let own_pump = if pump_source == TempSource::Liquid {
                liquid
            } else if pump_source == TempSource::Cpu {
                cpu
            } else {
                gpu
            };
            let own_fan = if fan_source == TempSource::Liquid {
                liquid
            } else if fan_source == TempSource::Cpu {
                cpu
            } else {
                gpu
            };
            &&& (own_pump is None ==> r.0 is None)
            &&& (own_pump matches Some(t) ==> r.0 == Some(curve_duty(pump, t as int) as u8))
            &&& (own_fan is None ==> r.1 is None)
            &&& (own_fan matches Some(t) ==> r.1 == Some(curve_duty(fan, t as int) as u8))
        }),
{
}

/// Whichever reading a channel's curve does not follow can change freely
/// without changing that channel's Auto-mode duty.
pub proof fn lemma_auto_duty_ignores_other_readings(
    silent_duty_pct: u8,
    pump: Seq<CurvePoint>,
    pump_source: TempSource,
    fan: Seq<CurvePoint>,
    fan_source: TempSource,
    liquid1: Option<i32>,
    cpu1: Option<i32>,
    gpu1: Option<i32>,
    liquid2: Option<i32>,
    cpu2: Option<i32>,
    gpu2: Option<i32>,
)
    ensures
        ({
            let r1 = duty_decision(
                Mode::Auto,
                false,
                silent_duty_pct,
                pump,
                pump_source,
                fan,
                fan_source,
                liquid1,
                cpu1,
                gpu1,
            );
            let r2 = duty_decision(
                Mode::Auto,
                false,
                silent_duty_pct,
                pump,
                pump_source,
                fan,
                fan_source,
                liquid2,
                cpu2,
                gpu2,
            );
            &&& (fan_source == TempSource::Gpu && gpu1 == gpu2 ==> r1.1 == r2.1)
            &&& (fan_source == TempSource::Cpu && cpu1 == cpu2 ==> r1.1 == r2.1)
            &&& (fan_source == TempSource::Liquid && liquid1 == liquid2 ==> r1.1 == r2.1)
            &&& (pump_source == TempSource::Gpu && gpu1 == gpu2 ==> r1.0 == r2.0)
            &&& (pump_source == TempSource::Cpu && cpu1 == cpu2 ==> r1.0 == r2.0)
            &&& (pump_source == TempSource::Liquid && liquid1 == liquid2 ==> r1.0 == r2.0)
        }),
{
}

/// A decided duty is written exactly when it differs from the duty last
/// applied, and then it is that duty that is written; a channel with no
/// decided duty is never written.
pub proof fn lemma_write_exactly_when_changed(decided: Option<u8>, last: Option<u8>)
    ensures
        write_needed(decided, last) is Some <==> (decided is Some && last != decided),
        write_needed(decided, last) is Some ==> write_needed(decided, last) == decided,
{
}

/// Whatever was last applied, a cycle whose failsafe fires plans a 100%
/// write on every channel not already at 100%.
pub proof fn lemma_failsafe_writes_full_duty(
    last_pump: Option<u8>,
    last_fan: Option<u8>,
    cfg: Config,
    r: Readings,
)
    requires
        r.liquid_mdeg matches Some(t) && t >= cfg.mode.failsafe_temp_mdeg,
    ensures
        ({
            let p = cycle_plan(last_pump, last_fan, cfg, r);
            &&& p.0
            &&& p.1 == Some(100u8) && p.2 == Some(100u8)
            &&& (last_pump != Some(100u8) ==> p.3 == Some(100u8))
            &&& (last_fan != Some(100u8) ==> p.4 == Some(100u8))
            &&& (last_pump == Some(100u8) ==> p.3 is None)
            &&& (last_fan == Some(100u8) ==> p.4 is None)
        }),
{
}

/// The gauge shows a microdegree value `u` as the nearest whole degree,
/// halves away from zero: within half a degree of `u`, and a value exactly
/// halfway goes to the degree farther from zero.
pub proof fn lemma_gauge_key_rounds_to_nearest_degree(source: TempSource, u: i64)
    ensures
        ({
            let k = gauge_key(source, Some(u));
            &&& k.source == source
            &&& k.whole_deg matches Some(w) && {
                &&& -500_000 <= u - w * 1_000_000 <= 500_000
                &&& (u - w * 1_000_000 == 500_000 ==> u < 0)
                &&& (u - w * 1_000_000 == -500_000 ==> u > 0)
            }
        }),
        gauge_key(source, None).whole_deg is None,
{
    let v = u as int;
    let w = whole_degrees(v);
    if v >= 0 {
        let q = (2 * v + 1_000_000) / 2_000_000;
        assert(-500_000 <= v - q * 1_000_000 <= 500_000 && (v - q * 1_000_000 == 500_000 ==> false)
            && 0 <= q <= v) by (nonlinear_arith)
            requires
                q == (2 * v + 1_000_000) / 2_000_000,
                v >= 0,
        ;
        assert(w == q);
    } else {
        let q = (-2 * v + 1_000_000) / 2_000_000;
        assert(-500_000 <= -v - q * 1_000_000 <= 500_000 && (-v - q * 1_000_000 == 500_000 ==> false)
            && 0 <= q <= -v) by (nonlinear_arith)
            requires
                q == (-2 * v + 1_000_000) / 2_000_000,
                v < 0,
        ;
        assert(w == -q);
    }
}

} // verus!
