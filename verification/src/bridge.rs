//! The GUI's view of the configuration: the strings it exchanges with its
//! QML front end, the readings it formats for display, and the curve edits
//! it applies before saving.

use crate::config::{
    lemma_stable_sort_of_sorted_is_identity, sort_by_temp, sorted_by_temp, stable_sorted, ChannelCurve,
    Config, CurvePoint, Mode, TempSource,
};
use crate::ipc::LiveState;
use crate::text::{chars_eq, chars_of, decimal, digit_char, push_decimal, push_str, string_from_chars};
use vstd::arithmetic::power2::{lemma_pow2_unfold, pow2};
use vstd::prelude::*;

verus! {

broadcast use vstd::seq_lib::group_seq_properties;

pub open spec fn temp_source_name(s: TempSource) -> Seq<char> {
    match s {
        TempSource::Liquid => "liquid"@,
        TempSource::Cpu => "cpu"@,
        TempSource::Gpu => "gpu"@,
    }
}

pub open spec fn temp_source_named(s: Seq<char>) -> Option<TempSource> {
    if s == "liquid"@ {
        Some(TempSource::Liquid)
    } else if s == "cpu"@ {
        Some(TempSource::Cpu)
    } else if s == "gpu"@ {
        Some(TempSource::Gpu)
    } else {
        None
    }
}

pub open spec fn mode_name(m: Mode) -> Seq<char> {
    match m {
        Mode::Performance => "performance"@,
        Mode::Silent => "silent"@,
        Mode::Auto => "auto"@,
    }
}

pub open spec fn mode_named(s: Seq<char>) -> Option<Mode> {
    if s == "performance"@ {
        Some(Mode::Performance)
    } else if s == "silent"@ {
        Some(Mode::Silent)
    } else if s == "auto"@ {
        Some(Mode::Auto)
    } else {
        None
    }
}

/// The name a temperature source goes by in the GUI and the config file.
pub fn temp_source_str(s: TempSource) -> (r: &'static str)
    ensures
        r@ == temp_source_name(s),
{
    match s {
        TempSource::Liquid => "liquid",
        TempSource::Cpu => "cpu",
        TempSource::Gpu => "gpu",
    }
}

/// The temperature source with the given name, if any.
pub fn parse_temp_source(s: &str) -> (r: Option<TempSource>)
    ensures
        r == temp_source_named(s@),
{
    let c = chars_of(s);
    if chars_eq(&c, &chars_of("liquid")) {
        Some(TempSource::Liquid)
    } else if chars_eq(&c, &chars_of("cpu")) {
        Some(TempSource::Cpu)
    } else if chars_eq(&c, &chars_of("gpu")) {
        Some(TempSource::Gpu)
    } else {
        None
    }
}

/// The name a mode goes by in the GUI and the config file.
pub fn source_mode_str(m: Mode) -> (r: &'static str)
    ensures
        r@ == mode_name(m),
{
    match m {
        Mode::Performance => "performance",
        Mode::Silent => "silent",
        Mode::Auto => "auto",
    }
}

/// The mode with the given name, if any.
pub fn parse_mode(s: &str) -> (r: Option<Mode>)
    ensures
        r == mode_named(s@),
{
    let c = chars_of(s);
    if chars_eq(&c, &chars_of("performance")) {
        Some(Mode::Performance)
    } else if chars_eq(&c, &chars_of("silent")) {
        Some(Mode::Silent)
    } else if chars_eq(&c, &chars_of("auto")) {
        Some(Mode::Auto)
    } else {
        None
    }
}

/// Every temperature source's name reads back as that source.
pub proof fn lemma_temp_source_names_round_trip(s: TempSource)
    ensures
        temp_source_named(temp_source_name(s)) == Some(s),
{
    reveal_strlit("liquid");
    reveal_strlit("cpu");
    reveal_strlit("gpu");
    assert("cpu"@.len() != "liquid"@.len());
    assert("gpu"@.len() != "liquid"@.len());
    assert("gpu"@[0] != "cpu"@[0]);
}

/// Every mode's name reads back as that mode.
pub proof fn lemma_mode_names_round_trip(m: Mode)
    ensures
        mode_named(mode_name(m)) == Some(m),
{
    reveal_strlit("performance");
    reveal_strlit("silent");
    reveal_strlit("auto");
    assert("silent"@.len() != "performance"@.len());
    assert("auto"@.len() != "performance"@.len());
    assert("auto"@.len() != "silent"@.len());
}

pub open spec fn empty_curves_text() -> Seq<char> {
    "{\"pump\":{\"temp_source\":\"liquid\",\"points\":[]},\"fan\":{\"temp_source\":\"liquid\",\"points\":[]}}"@
}

/// The curves handed to the front end when no config could be loaded.
pub fn empty_curves_json() -> (s: &'static str)
    ensures
        s@ == empty_curves_text(),
{
    "{\"pump\":{\"temp_source\":\"liquid\",\"points\":[]},\"fan\":{\"temp_source\":\"liquid\",\"points\":[]}}"
}

/// `n / d` rounded to the nearest whole number, ties to the even one.
pub open spec fn div_round_even(n: int, d: int) -> int {
    let q = n / d;
    let r = n % d;
    if 2 * r > d || (2 * r == d && q % 2 == 1) {
        q + 1
    } else {
        q
    }
}

/// Beyond 2^24 an `f32` keeps 24 significant bits: the smallest shift
/// `s`, from `s` up to 8, with `n < 2^(24 + s)`.
pub open spec fn whole_shift(n: int, s: nat) -> nat
    decreases 8 - s,
{
    if s >= 8 || n < pow2(24 + s) {
        s
    } else {
        whole_shift(n, s + 1)
    }
}

/// The `f32` nearest to the whole number `n` (at most 2^32), ties to even:
/// `n` itself up to 2^24, and `n` rounded to 24 significant bits above.
pub open spec fn f32_of_whole(n: int) -> int {
    let s = whole_shift(n, 0);
    div_round_even(n, pow2(s) as int) * pow2(s)
}

/// Thousandths of a unit in 2^24 units, the bound of an `f32` significand.
pub open spec fn significand_bound() -> int {
    1000 * pow2(24) as int
}

/// Scale of the `f32` nearest to `x / 1000`: the first `k`, from `k` up
/// to 40, at which one more doubling of `x * 2^k` would reach 2^24
/// thousandths, so that `x * 2^k / 1000` rounds to a 24-bit significand.
pub open spec fn thousandths_exp(x: int, k: nat) -> nat
    decreases 40 - k,
{
    if k >= 40 || x * pow2(k + 1) >= significand_bound() {
        k
    } else {
        thousandths_exp(x, k + 1)
    }
}

/// Tenths shown for the `f32` nearest to `x / 1000`, ties to even, when it
/// is printed to one decimal, ties to even, for a whole number `x >= 0`.
pub open spec fn f32_thousandths_tenths(x: int) -> int {
    let k = thousandths_exp(x, 0);
    let sig = div_round_even(x * pow2(k), 1000);
    div_round_even(sig * 10, pow2(k) as int)
}

/// A temperature as the live view shows it: the reading in millidegrees
/// taken as an `f32` count of degrees (`m as f32 / 1000.0`) and printed to
/// one decimal: `29100` is `29.1`, `29150` (an `f32` just below 29.15) is
/// `29.1`, `29250` (exactly 29.25, a tie) is `29.2`, `-40` is `-0.0`.
pub open spec fn tenths_text(m: int) -> Seq<char> {
    let mag = if m < 0 {
        -m
    } else {
        m
    };
    let q = f32_thousandths_tenths(f32_of_whole(mag));
    let sign = if m < 0 {
        seq!['-']
    } else {
        Seq::<char>::empty()
    };
    sign + decimal((q / 10) as nat) + seq!['.', digit_char(q % 10)]
}

fn div_round_even_exec(n: u64, d: u64) -> (r: u64)
    requires
        d > 0,
        n / d < u64::MAX,
    ensures
        r == div_round_even(n as int, d as int),
{
    let q = n / d;
    let r = n % d;
    if r > d - r || (r == d - r && q % 2 == 1) {
        q + 1
    } else {
        q
    }
}

/// The `f32` nearest to the whole number `n`.
fn f32_whole(n: u64) -> (x: u64)
    requires
        n <= 0x8000_0000,
    ensures
        x == f32_of_whole(n as int),
        x <= 0x1_0000_0000,
{
    let mut s: u64 = 0;
    let mut q: u64 = 1;
    proof {
        vstd::arithmetic::power2::lemma2_to64();
    }
    while s < 8 && n >= 0x100_0000 * q
        invariant
            s <= 8,
            q == pow2(s as nat),
            1 <= q <= 0x100,
            s == 8 ==> q == 0x100,
            whole_shift(n as int, 0) == whole_shift(n as int, s as nat),
            pow2((24 + s) as nat) == 0x100_0000 * q,
        decreases 8 - s,
    {
        proof {
            lemma_pow2_unfold((s + 1) as nat);
            lemma_pow2_unfold((24 + s + 1) as nat);
            vstd::arithmetic::power2::lemma2_to64();
            if s + 1 < 8 {
                vstd::arithmetic::power2::lemma_pow2_strictly_increases((s + 1) as nat, 8);
            }
        }
        s = s + 1;
        q = q * 2;
    }
    let m = div_round_even_exec(n, q);
    proof {
        assert(n < 0x100_0000 * q);
        assert(n / q < 0x100_0000) by (nonlinear_arith)
            requires
                n < 0x100_0000 * q,
                q >= 1,
        ;
        assert(m * q <= 0x1_0000_0000) by (nonlinear_arith)
            requires
                m <= n / q + 1,
                n / q < 0x100_0000,
                1 <= q <= 0x100,
        ;
    }
    m * q
}

/// Tenths shown for the `f32` nearest to `x / 1000`.
fn f32_tenths(x: u64) -> (t: u64)
    requires
        x <= 0x1_0000_0000,
    ensures
        t == f32_thousandths_tenths(x as int),
{
    proof {
        vstd::arithmetic::power2::lemma2_to64();
        vstd::arithmetic::power2::lemma2_to64_rest();
    }
    let bound: u64 = 1000 * 0x100_0000;
    let half: u64 = 500 * 0x100_0000;
    let mut k: u64 = 0;
    let mut p: u64 = 1;
    while k < 40 && x * p < half
        invariant
            k <= 40,
            p == pow2(k as nat),
            1 <= p <= 0x100_0000_0000,
            x <= 0x1_0000_0000,
            x * p < bound,
            bound == significand_bound(),
            bound == 2 * half,
            thousandths_exp(x as int, 0) == thousandths_exp(x as int, k as nat),
        decreases 40 - k,
    {
        proof {
            lemma_pow2_unfold((k + 1) as nat);
            vstd::arithmetic::power2::lemma2_to64_rest();
            if k + 1 < 40 {
                vstd::arithmetic::power2::lemma_pow2_strictly_increases((k + 1) as nat, 40);
            }
            assert(x * pow2((k + 1) as nat) == 2 * (x * p)) by (nonlinear_arith)
                requires
                    pow2((k + 1) as nat) == 2 * p,
            ;
        }
        k = k + 1;
        p = 2 * p;
    }
    proof {
        if k < 40 {
            lemma_pow2_unfold((k + 1) as nat);
            assert(x * pow2((k + 1) as nat) == 2 * (x * p)) by (nonlinear_arith)
                requires
                    pow2((k + 1) as nat) == 2 * p,
            ;
        }
    }
    let sig = div_round_even_exec(x * p, 1000);
    proof {
        assert(sig <= (x * p) / 1000 + 1);
        assert((x * p) / 1000 <= 0x100_0000);
    }
    let t = div_round_even_exec(sig * 10, p);
    t
}

pub open spec fn temp_display(t: Option<i32>) -> Seq<char> {
    match t {
        Some(m) => tenths_text(m as int) + " \u{b0}C"@,
        None => "-- \u{b0}C"@,
    }
}

pub open spec fn rpm_display(r: Option<u32>) -> Seq<char> {
    match r {
        Some(v) => decimal(v as nat) + " rpm"@,
        None => "-- rpm"@,
    }
}

pub open spec fn pct_display(p: Option<u8>) -> Seq<char> {
    match p {
        Some(v) => decimal(v as nat) + "%"@,
        None => "--%"@,
    }
}

fn push_temp(out: &mut Vec<char>, t: Option<i32>)
    ensures
        final(out)@ == old(out)@ + temp_display(t),
{
    match t {
        Some(m) => {
            let ghost start = out@;
            let mag: u64 = if m < 0 {
                (0i64 - m as i64) as u64
            } else {
                m as u64
            };
            if m < 0 {
                out.push('-');
            }
            let q = f32_tenths(f32_whole(mag));
            push_decimal(out, q / 10);
            out.push('.');
            let d = (q % 10) as u8;
            out.push((48u8 + d) as char);
            assert(out@ == start + tenths_text(m as int));
            push_str(out, " \u{b0}C");
        },
        None => push_str(out, "-- \u{b0}C"),
    }
}

fn push_rpm(out: &mut Vec<char>, r: Option<u32>)
    ensures
        final(out)@ == old(out)@ + rpm_display(r),
{
    match r {
        Some(v) => {
            push_decimal(out, v as u64);
            push_str(out, " rpm");
        },
        None => push_str(out, "-- rpm"),
    }
}

fn push_pct(out: &mut Vec<char>, p: Option<u8>)
    ensures
        final(out)@ == old(out)@ + pct_display(p),
{
    match p {
        Some(v) => {
            push_decimal(out, v as u64);
            push_str(out, "%");
        },
        None => push_str(out, "--%"),
    }
}

/// A temperature for display, e.g. `29.1 °C`, or `-- °C` when unknown.
pub fn fmt_temp(t: Option<i32>) -> (s: String)
    ensures
        s@ == temp_display(t),
{
    let mut v: Vec<char> = Vec::new();
    push_temp(&mut v, t);
    string_from_chars(&v)
}

/// An RPM for display, e.g. `1200 rpm`, or `-- rpm` when unknown.
pub fn fmt_rpm(r: Option<u32>) -> (s: String)
    ensures
        s@ == rpm_display(r),
{
    let mut v: Vec<char> = Vec::new();
    push_rpm(&mut v, r);
    string_from_chars(&v)
}

/// A duty for display, e.g. `40%`, or `--%` when unknown.
pub fn fmt_pct(p: Option<u8>) -> (s: String)
    ensures
        s@ == pct_display(p),
{
    let mut v: Vec<char> = Vec::new();
    push_pct(&mut v, p);
    string_from_chars(&v)
}

/// A channel's status line: RPM and duty, e.g. `1200 rpm (40%)`.
pub fn fmt_channel_status(rpm: Option<u32>, duty: Option<u8>) -> (s: String)
    ensures
        s@ == rpm_display(rpm) + " ("@ + pct_display(duty) + ")"@,
{
    let mut v: Vec<char> = Vec::new();
    push_rpm(&mut v, rpm);
    push_str(&mut v, " (");
    push_pct(&mut v, duty);
    push_str(&mut v, ")");
    string_from_chars(&v)
}


/// A curve as the front end edits it: the source by name, and points in
/// whatever order the user left them.
#[derive(Clone, Debug)]
pub struct CurveEdit {
    pub temp_source: String,
    pub points: Vec<CurvePoint>,
}

pub open spec fn capped_point(p: CurvePoint) -> CurvePoint {
    CurvePoint {
        temp_mdeg: p.temp_mdeg,
        duty_pct: if p.duty_pct > 100 {
            100
        } else {
            p.duty_pct
        },
    }
}

/// The points with every duty capped at 100%.
pub open spec fn capped(s: Seq<CurvePoint>) -> Seq<CurvePoint> {
    s.map_values(|p: CurvePoint| capped_point(p))
}

/// Why an edited curve cannot be applied, if it cannot: an unknown source
/// name, or no points at all.
pub open spec fn edit_error(e: CurveEdit) -> Option<Seq<char>> {
    if temp_source_named(e.temp_source@) is None {
        Some("Unknown temp source: "@ + e.temp_source@)
    } else if e.points@.len() == 0 {
        Some("A curve must have at least one point"@)
    } else {
        None
    }
}

/// `c` is what applying the edit `e` gives.
pub open spec fn edited_curve(c: ChannelCurve, e: CurveEdit) -> bool {
    &&& Some(c.temp_source) == temp_source_named(e.temp_source@)
    &&& stable_sorted(c.points@, capped(e.points@))
}

fn cap_points(points: &Vec<CurvePoint>) -> (out: Vec<CurvePoint>)
    ensures
        out@ == capped(points@),
{
    let n = points.len();
    let mut out: Vec<CurvePoint> = Vec::new();
    let mut i: usize = 0;
    while i < n
        invariant
            n == points@.len(),
            i <= n,
            out@ == capped(points@.take(i as int)),
        decreases n - i,
    {
        let p = points[i];
        let d = if p.duty_pct > 100 {
            100
        } else {
            p.duty_pct
        };
        out.push(CurvePoint { temp_mdeg: p.temp_mdeg, duty_pct: d });
        assert(points@.take(i + 1) == points@.take(i as int).push(p));
        assert(capped(points@.take(i + 1)) =~= capped(points@.take(i as int)).push(capped_point(p)));
        i = i + 1;
    }
    assert(points@.take(n as int) == points@);
    out
}

/// Applies an edited curve to `target`: the source must be a known name
/// and there must be at least one point; duties are capped at 100% and the
/// points sorted by temperature, as the daemon's interpolation requires.
/// On error `target` is left as it was.
pub fn apply_curve(target: &mut ChannelCurve, src: &CurveEdit) -> (r: Result<(), String>)
    ensures
        match edit_error(*src) {
            Some(m) => (r matches Err(e) && e@ == m) && *final(target) == *old(target),
            None => r is Ok && edited_curve(*final(target), *src),
        },
{
    let source = match parse_temp_source(src.temp_source.as_str()) {
        Some(s) => s,
        None => {
            let mut v: Vec<char> = Vec::new();
            push_str(&mut v, "Unknown temp source: ");
            push_str(&mut v, src.temp_source.as_str());
            return Err(string_from_chars(&v));
        },
    };
    if src.points.len() == 0 {
        return Err(String::from_str("A curve must have at least one point"));
    }
    let capped_points = cap_points(&src.points);
    let sorted = sort_by_temp(&capped_points);
    target.temp_source = source;
    target.points = sorted;
    Ok(())
}

/// Applies the front end's edits to a loaded configuration before it is
/// saved: the mode by name, then the pump and fan curves. The first
/// problem found is reported (an unknown mode, else the pump curve's, else
/// the fan curve's); everything the GUI does not edit is kept.
pub fn apply_edits(cfg: Config, mode: &str, pump: &CurveEdit, fan: &CurveEdit) -> (r: Result<
    Config,
    String,
>)
    ensures
        match mode_named(mode@) {
            None => r matches Err(e) && e@ == "Unknown mode: "@ + mode@,
            Some(m) => match edit_error(*pump) {
                Some(pm) => r matches Err(e) && e@ == pm,
                None => match edit_error(*fan) {
                    Some(fm) => r matches Err(e) && e@ == fm,
                    None => r matches Ok(c) && {
                        &&& c.mode.active == m
                        &&& c.mode.silent_duty_pct == cfg.mode.silent_duty_pct
                        &&& c.mode.failsafe_temp_mdeg == cfg.mode.failsafe_temp_mdeg
                        &&& c.hwmon == cfg.hwmon
                        &&& c.poll_interval_ms == cfg.poll_interval_ms
                        &&& c.lcd == cfg.lcd
                        &&& edited_curve(c.pump_curve, *pump)
                        &&& edited_curve(c.fan_curve, *fan)
                    },
                },
            },
        },
{
    let m = match parse_mode(mode) {
        Some(m) => m,
        None => {
            let mut v: Vec<char> = Vec::new();
            push_str(&mut v, "Unknown mode: ");
            push_str(&mut v, mode);
            return Err(string_from_chars(&v));
        },
    };
    let mut cfg = cfg;
    cfg.mode.active = m;
    let p = apply_curve(&mut cfg.pump_curve, pump);
    let f = apply_curve(&mut cfg.fan_curve, fan);
    match p {
        Err(e) => Err(e),
        Ok(()) => match f {
            Err(e) => Err(e),
            Ok(()) => Ok(cfg),
        },
    }
}

/// The status line after a save: whether the file was written and whether
/// the daemon then acknowledged the reload (only asked for after a write).
pub fn save_status(write_error: Option<String>, reload_error: Option<String>) -> (s: String)
    ensures
        s@ == match write_error {
            Some(e) => "Save failed: "@ + e@,
            None => match reload_error {
                Some(e) => "Saved, but daemon reload failed: "@ + e@,
                None => "Saved and reloaded."@,
            },
        },
{
    let mut v: Vec<char> = Vec::new();
    match write_error {
        Some(e) => {
            push_str(&mut v, "Save failed: ");
            push_str(&mut v, e.as_str());
        },
        None => match reload_error {
            Some(e) => {
                push_str(&mut v, "Saved, but daemon reload failed: ");
                push_str(&mut v, e.as_str());
            },
            None => push_str(&mut v, "Saved and reloaded."),
        },
    }
    string_from_chars(&v)
}


/// The text of a channel's status line.
pub open spec fn channel_display(rpm: Option<u32>, duty: Option<u8>) -> Seq<char> {
    rpm_display(rpm) + " ("@ + pct_display(duty) + ")"@
}

/// The live readings as the GUI shows them, and the error of the last poll.
#[derive(Clone, Debug)]
pub struct LiveView {
    pub liquid_temp: String,
    pub cpu_temp: String,
    pub gpu_temp: String,
    pub pump_status: String,
    pub fan_status: String,
    pub failsafe_active: bool,
    pub daemon_error: String,
}

/// A live view showing the daemon's state `s`, with no error.
pub open spec fn shows_state(v: LiveView, s: LiveState) -> bool {
    &&& v.liquid_temp@ == temp_display(s.liquid_temp_mdeg)
    &&& v.cpu_temp@ == temp_display(s.cpu_temp_mdeg)
    &&& v.gpu_temp@ == temp_display(s.gpu_temp_mdeg)
    &&& v.pump_status@ == channel_display(s.pump_rpm, s.pump_duty_pct)
    &&& v.fan_status@ == channel_display(s.fan_rpm, s.fan_duty_pct)
    &&& v.failsafe_active == s.failsafe_active
    &&& v.daemon_error@ == Seq::<char>::empty()
}

impl LiveView {
    /// Before the first poll: every reading unknown, no failsafe, no error.
    pub fn unknown() -> (v: Self)
        ensures
            v.liquid_temp@ == temp_display(None),
            v.cpu_temp@ == temp_display(None),
            v.gpu_temp@ == temp_display(None),
            v.pump_status@ == channel_display(None, None),
            v.fan_status@ == channel_display(None, None),
            !v.failsafe_active,
            v.daemon_error@ == Seq::<char>::empty(),
    {
        LiveView {
            liquid_temp: fmt_temp(None),
            cpu_temp: fmt_temp(None),
            gpu_temp: fmt_temp(None),
            pump_status: fmt_channel_status(None, None),
            fan_status: fmt_channel_status(None, None),
            failsafe_active: false,
            daemon_error: String::new(),
        }
    }

    /// The view after a poll of the daemon: its state reformats every
    /// reading and clears the error; a failed poll leaves the last readings
    /// in place and reports the failure, which says they have gone stale.
    pub fn refreshed(self, reply: Result<LiveState, String>) -> (v: Self)
        ensures
            match reply {
                Ok(s) => shows_state(v, s),
                Err(e) => {
                    &&& v.liquid_temp@ == self.liquid_temp@
                    &&& v.cpu_temp@ == self.cpu_temp@
                    &&& v.gpu_temp@ == self.gpu_temp@
                    &&& v.pump_status@ == self.pump_status@
                    &&& v.fan_status@ == self.fan_status@
                    &&& v.failsafe_active == self.failsafe_active
                    &&& v.daemon_error@ == e@
                },
            },
    {
        match reply {
            Ok(s) => LiveView {
                liquid_temp: fmt_temp(s.liquid_temp_mdeg),
                cpu_temp: fmt_temp(s.cpu_temp_mdeg),
                gpu_temp: fmt_temp(s.gpu_temp_mdeg),
                pump_status: fmt_channel_status(s.pump_rpm, s.pump_duty_pct),
                fan_status: fmt_channel_status(s.fan_rpm, s.fan_duty_pct),
                failsafe_active: s.failsafe_active,
                daemon_error: String::new(),
            },
            Err(e) => LiveView {
                liquid_temp: self.liquid_temp,
                cpu_temp: self.cpu_temp,
                gpu_temp: self.gpu_temp,
                pump_status: self.pump_status,
                fan_status: self.fan_status,
                failsafe_active: self.failsafe_active,
                daemon_error: e,
            },
        }
    }
}

/// The editable part of the GUI's view: mode name, curves as JSON, and the
/// status line.
#[derive(Clone, Debug)]
pub struct EditorView {
    pub mode: String,
    pub curves_json: String,
    pub status_message: String,
}

/// The editor after loading the configuration: when it loaded, with its
/// active `mode` and its curves as `curves_json`, it shows those with no
/// message; when it failed, it shows mode `auto`, no curves, and the
/// failure.
pub fn editor_after_load(loaded: Result<(Mode, String), String>) -> (v: EditorView)
    ensures
        match loaded {
            Ok((m, curves)) => {
                &&& v.mode@ == mode_name(m)
                &&& v.curves_json@ == curves@
                &&& v.status_message@ == Seq::<char>::empty()
            },
            Err(e) => {
                &&& v.mode@ == mode_name(Mode::Auto)
                &&& v.curves_json@ == empty_curves_text()
                &&& v.status_message@ == "Failed to load config: "@ + e@
            },
        },
{
    match loaded {
        Ok((m, curves)) => EditorView {
            mode: String::from_str(source_mode_str(m)),
            curves_json: curves,
            status_message: String::new(),
        },
        Err(e) => {
            let mut v: Vec<char> = Vec::new();
            push_str(&mut v, "Failed to load config: ");
            push_str(&mut v, e.as_str());
            EditorView {
                mode: String::from_str(source_mode_str(Mode::Auto)),
                curves_json: String::from_str(empty_curves_json()),
                status_message: string_from_chars(&v),
            }
        },
    }
}

/// Why a save is refused before anything is applied, if it is: no
/// configuration was ever loaded to write back, the mode is unknown, or the
/// curve data from the front end did not parse.
pub open spec fn save_refusal_text(loaded: bool, mode: Seq<char>, curves_error: Option<Seq<char>>) -> Option<Seq<char>> {
    if !loaded {
        Some("Cannot save: config was never loaded successfully"@)
    } else if mode_named(mode) is None {
        Some("Unknown mode: "@ + mode)
    } else {
        match curves_error {
            Some(e) => Some("Invalid curve data: "@ + e),
            None => None,
        }
    }
}

/// The status line refusing a save, checked in order: a configuration was
/// loaded, the mode is known, the curve data parsed (`curves_error` says
/// why not). `None` when the edits may be applied.
pub fn save_refusal(loaded: bool, mode: &str, curves_error: Option<String>) -> (r: Option<String>)
    ensures
        match save_refusal_text(loaded, mode@, match curves_error {
            Some(e) => Some(e@),
            None => None,
        }) {
            Some(t) => r matches Some(m) && m@ == t,
            None => r is None,
        },
{
    if !loaded {
        return Some(String::from_str("Cannot save: config was never loaded successfully"));
    }
    if parse_mode(mode).is_none() {
        let mut v: Vec<char> = Vec::new();
        push_str(&mut v, "Unknown mode: ");
        push_str(&mut v, mode);
        return Some(string_from_chars(&v));
    }
    match curves_error {
        Some(e) => {
            let mut v: Vec<char> = Vec::new();
            push_str(&mut v, "Invalid curve data: ");
            push_str(&mut v, e.as_str());
            Some(string_from_chars(&v))
        },
        None => None,
    }
}

/// Applying a curve edit whose points are already in ascending temperature
/// order, with no duty above 100%, stores exactly those points: a curve
/// handed to the front end and applied back unchanged survives the trip.
pub proof fn lemma_apply_sorted_curve_keeps_points(c: ChannelCurve, e: CurveEdit)
    requires
        edited_curve(c, e),
        sorted_by_temp(e.points@),
        forall|i: int| 0 <= i < e.points@.len() ==> (#[trigger] e.points@[i]).duty_pct <= 100,
    ensures
        c.points@ == e.points@,
{
    assert(capped(e.points@) =~= e.points@);
    lemma_stable_sort_of_sorted_is_identity(c.points@, e.points@);
}

} // verus!
