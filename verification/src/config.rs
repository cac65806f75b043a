//! Configuration schema: modes, temperature sources, fan/pump curves.

use crate::text::{decimal, millideg_text, push_decimal, push_millideg, push_str, string_from_chars};
use vstd::prelude::*;

verus! {

broadcast use vstd::seq_lib::group_seq_properties;

/// Operating mode of the controller.
#[derive(Clone, Copy, Debug, PartialEq, Eq, Structural)]
pub enum Mode {
    /// Both pump and fan forced to 100%, ignoring curves entirely.
    Performance,
    /// Both pump and fan held at a fixed low duty (`silent_duty_pct`),
    /// ignoring curves; the failsafe ceiling still applies.
    Silent,
    /// Each curve is driven by its own temperature source.
    Auto,
}

impl Default for Mode {
    fn default() -> (m: Self)
        ensures
            m == Mode::Auto,
    {
        Mode::Auto
    }
}

impl Mode {
    /// Human-readable name of the mode, as reported to clients.
    pub fn label(&self) -> (s: &'static str)
        ensures
            s@ == mode_label(*self),
    {
        match self {
            Mode::Performance => "Performance",
            Mode::Silent => "Silent",
            Mode::Auto => "Auto",
        }
    }
}

pub open spec fn mode_label(m: Mode) -> Seq<char> {
    match m {
        Mode::Performance => "Performance"@,
        Mode::Silent => "Silent"@,
        Mode::Auto => "Auto"@,
    }
}

/// Duty used for both channels in Silent mode when the config names none.
pub fn default_silent_duty() -> (d: u8)
    ensures
        d == 40,
{
    40
}

/// Failsafe ceiling when the config names none: 60 degrees Celsius.
pub fn default_failsafe_temp() -> (t: i32)
    ensures
        t == 60_000,
{
    60_000
}

/// Lowest failsafe ceiling a config may set: 40 degrees Celsius.
pub const FAILSAFE_FLOOR_MDEG: i32 = 40_000;

/// Highest curve-point temperature accepted: 150 degrees Celsius.
pub const CURVE_TEMP_MAX_MDEG: i32 = 150_000;

/// Mode selection and the parameters that go with it.
#[derive(Clone, Copy, Debug, PartialEq, Eq, Structural)]
pub struct ModeConfig {
    pub active: Mode,
    /// Fixed duty used for both pump and fan while in Silent mode.
    pub silent_duty_pct: u8,
    /// Safety ceiling in millidegrees: at or above this liquid temperature
    /// pump and fan are forced to 100% regardless of the active mode.
    pub failsafe_temp_mdeg: i32,
}

impl Default for ModeConfig {
    fn default() -> (c: Self)
        ensures
            c.active == Mode::Auto,
            c.silent_duty_pct == 40,
            c.failsafe_temp_mdeg == 60_000,
    {
        ModeConfig {
            active: Mode::default(),
            silent_duty_pct: default_silent_duty(),
            failsafe_temp_mdeg: default_failsafe_temp(),
        }
    }
}

/// A single point of a curve: at `temp_mdeg` millidegrees Celsius the
/// channel runs at `duty_pct` percent.
#[derive(Clone, Copy, Debug, PartialEq, Eq, Structural)]
pub struct CurvePoint {
    pub temp_mdeg: i32,
    pub duty_pct: u8,
}

/// Rounds `num / den` to the nearest integer, halves away from zero.
pub open spec fn round_half_away(num: int, den: int) -> int
    recommends
        den > 0,
{
    if num >= 0 {
        (2 * num + den) / (2 * den)
    } else {
        -((-2 * num + den) / (2 * den))
    }
}

pub open spec fn clamp_pct(v: int) -> int {
    if v < 0 {
        0
    } else if v > 100 {
        100
    } else {
        v
    }
}

/// Duty at `t` on the straight line from `a` to `b`, rounded to a whole
/// percent and clamped to 0..=100. A zero or negative span yields `a`'s duty.
pub open spec fn interp_duty(a: CurvePoint, b: CurvePoint, t: int) -> int {
    let span = b.temp_mdeg - a.temp_mdeg;
    if span <= 0 {
        a.duty_pct as int
    } else {
        clamp_pct(
            round_half_away(
                a.duty_pct * span + (t - a.temp_mdeg) * (b.duty_pct - a.duty_pct),
                span,
            ),
        )
    }
}

/// Duty from the first pair of neighbouring points, at index `i` or later,
/// whose temperatures bracket `t`; 100 if no pair does.
pub open spec fn window_duty(pts: Seq<CurvePoint>, t: int, i: int) -> int
    decreases pts.len() - i,
{
    if i < 0 || i + 1 >= pts.len() {
        100
    } else if pts[i].temp_mdeg <= t <= pts[i + 1].temp_mdeg {
        interp_duty(pts[i], pts[i + 1], t)
    } else {
        window_duty(pts, t, i + 1)
    }
}

/// The duty a curve asks for at temperature `t`.
pub open spec fn curve_duty(pts: Seq<CurvePoint>, t: int) -> int {
    if pts.len() == 0 {
        100
    } else if t <= pts[0].temp_mdeg {
        pts[0].duty_pct as int
    } else if t >= pts.last().temp_mdeg {
        pts.last().duty_pct as int
    } else {
        window_duty(pts, t, 0)
    }
}

fn interpolate(a: CurvePoint, b: CurvePoint, t: i32) -> (d: u8)
    ensures
        d == interp_duty(a, b, t as int),
{
    let span: i64 = b.temp_mdeg as i64 - a.temp_mdeg as i64;
    if span <= 0 {
        return a.duty_pct;
    }
    let ad = a.duty_pct as i64;
    let bd = b.duty_pct as i64;
    let dt: i64 = t as i64 - a.temp_mdeg as i64;
    assert(-0x1_0000_0000 <= dt <= 0x1_0000_0000);
    assert(-255 * 0x1_0000_0000 <= dt * (bd - ad) <= 255 * 0x1_0000_0000) by (nonlinear_arith)
        requires
            -0x1_0000_0000 <= dt <= 0x1_0000_0000,
            -255 <= bd - ad <= 255,
    ;
    assert(0 <= ad * span <= 255 * 0x1_0000_0000) by (nonlinear_arith)
        requires
            0 <= ad <= 255,
            0 < span <= 0x1_0000_0000,
    ;
    let num: i64 = ad * span + dt * (bd - ad);
    let r: i64 = if num >= 0 {
        (2 * num + span) / (2 * span)
    } else {
        let q: i64 = (-2 * num + span) / (2 * span);
        assert(0 <= q <= -2 * num + span) by (nonlinear_arith)
            requires
                q == (-2 * num + span) / (2 * span),
                -2 * num + span >= 0,
                span > 0,
        ;
        -q
    };
    if r < 0 {
        0
    } else if r > 100 {
        100
    } else {
        r as u8
    }
}

/// Which temperature reading a curve reacts to.
#[derive(Clone, Copy, Debug, PartialEq, Eq, Structural)]
pub enum TempSource {
    Liquid,
    Cpu,
    Gpu,
}

impl Default for TempSource {
    fn default() -> (s: Self)
        ensures
            s == TempSource::Liquid,
    {
        TempSource::Liquid
    }
}

/// Why a curve was rejected.
#[derive(Clone, Copy, Debug, PartialEq, Eq, Structural)]
pub enum CurveError {
    NoPoints,
    TempOutOfRange { temp_mdeg: i32 },
    DutyTooHigh { duty_pct: u8 },
    /// A point's temperature is below that of the point before it.
    Unsorted { before_mdeg: i32, temp_mdeg: i32 },
    /// The duty falls from one point to the next, hotter or equally hot one.
    DutyDrops { from_pct: u8, from_mdeg: i32, to_pct: u8, to_mdeg: i32 },
}

/// The complaint about a single point, if any: its temperature outside
/// 0..=150 degrees, or else its duty above 100%.
pub open spec fn point_error(p: CurvePoint) -> Option<CurveError> {
    if !(0 <= p.temp_mdeg <= CURVE_TEMP_MAX_MDEG) {
        Some(CurveError::TempOutOfRange { temp_mdeg: p.temp_mdeg })
    } else if p.duty_pct > 100 {
        Some(CurveError::DutyTooHigh { duty_pct: p.duty_pct })
    } else {
        None
    }
}

/// The complaint about the first faulty point at index `i` or later.
pub open spec fn first_point_error(pts: Seq<CurvePoint>, i: int) -> Option<CurveError>
    decreases pts.len() - i,
{
    if i < 0 || i >= pts.len() {
        None
    } else {
        match point_error(pts[i]) {
            Some(e) => Some(e),
            None => first_point_error(pts, i + 1),
        }
    }
}

/// The complaint about a point `b` that follows `a`, if any: `b` colder
/// than `a`, or else `b` asking for less duty than `a`.
pub open spec fn step_error(a: CurvePoint, b: CurvePoint) -> Option<CurveError> {
    if b.temp_mdeg < a.temp_mdeg {
        Some(CurveError::Unsorted { before_mdeg: a.temp_mdeg, temp_mdeg: b.temp_mdeg })
    } else if b.duty_pct < a.duty_pct {
        Some(
            CurveError::DutyDrops {
                from_pct: a.duty_pct,
                from_mdeg: a.temp_mdeg,
                to_pct: b.duty_pct,
                to_mdeg: b.temp_mdeg,
            },
        )
    } else {
        None
    }
}

/// Whether the step from point `i` to point `i + 1` is in order.
pub open spec fn step_ok(pts: Seq<CurvePoint>, i: int) -> bool {
    step_error(pts[i], pts[i + 1]) is None
}

/// The complaint about the first faulty step, from point `i` on.
pub open spec fn first_step_error(pts: Seq<CurvePoint>, i: int) -> Option<CurveError>
    decreases pts.len() - i,
{
    if i < 0 || i + 1 >= pts.len() {
        None
    } else {
        match step_error(pts[i], pts[i + 1]) {
            Some(e) => Some(e),
            None => first_step_error(pts, i + 1),
        }
    }
}

/// Outcome of validating a curve with these points: first that it has
/// points, then each point's range in order, then each step between
/// neighbouring points in order.
pub open spec fn curve_check(pts: Seq<CurvePoint>) -> Result<(), CurveError> {
    if pts.len() == 0 {
        Err(CurveError::NoPoints)
    } else {
        match first_point_error(pts, 0) {
            Some(e) => Err(e),
            None => match first_step_error(pts, 0) {
                Some(e) => Err(e),
                None => Ok(()),
            },
        }
    }
}

/// Temperatures and duties both non-decreasing along the curve.
pub open spec fn ascending_curve(pts: Seq<CurvePoint>) -> bool {
    forall|i: int, j: int|
        0 <= i <= j < pts.len() ==> {
            &&& (#[trigger] pts[i]).temp_mdeg <= (#[trigger] pts[j]).temp_mdeg
            &&& pts[i].duty_pct <= pts[j].duty_pct
        }
}

/// A curve that validation accepts: at least one point, every temperature
/// within 0..=150 degrees, every duty at most 100%, and points in
/// ascending order of temperature with a duty that never falls.
pub open spec fn valid_curve(pts: Seq<CurvePoint>) -> bool {
    &&& pts.len() > 0
    &&& forall|i: int| 0 <= i < pts.len() ==> point_error(#[trigger] pts[i]) is None
    &&& ascending_curve(pts)
}

proof fn lemma_first_point_error(pts: Seq<CurvePoint>, i: int)
    requires
        0 <= i <= pts.len(),
    ensures
        first_point_error(pts, i) is None <==> forall|j: int|
            i <= j < pts.len() ==> point_error(#[trigger] pts[j]) is None,
    decreases pts.len() - i,
{
    if i < pts.len() {
        lemma_first_point_error(pts, i + 1);
    }
}

proof fn lemma_first_step_error(pts: Seq<CurvePoint>, i: int)
    requires
        0 <= i,
    ensures
        first_step_error(pts, i) is None <==> forall|j: int|
            i <= j < pts.len() - 1 ==> #[trigger] step_ok(pts, j),
    decreases pts.len() - i,
{
    if i + 1 < pts.len() {
        lemma_first_step_error(pts, i + 1);
        assert(step_ok(pts, i) <==> step_error(pts[i], pts[i + 1]) is None);
    }
}

proof fn lemma_steps_chain(pts: Seq<CurvePoint>, i: int, j: int)
    requires
        forall|k: int| 0 <= k < pts.len() - 1 ==> #[trigger] step_ok(pts, k),
        0 <= i <= j < pts.len(),
    ensures
        pts[i].temp_mdeg <= pts[j].temp_mdeg,
        pts[i].duty_pct <= pts[j].duty_pct,
    decreases j - i,
{
    if i < j {
        lemma_steps_chain(pts, i, j - 1);
        assert(step_ok(pts, j - 1));
    }
}

/// Every step of a curve is in order exactly when the whole curve ascends.
proof fn lemma_steps_ascending(pts: Seq<CurvePoint>)
    ensures
        (forall|k: int| 0 <= k < pts.len() - 1 ==> #[trigger] step_ok(pts, k)) <==> ascending_curve(
            pts,
        ),
{
    if forall|k: int| 0 <= k < pts.len() - 1 ==> #[trigger] step_ok(pts, k) {
        assert forall|i: int, j: int| 0 <= i <= j < pts.len() implies {
            &&& (#[trigger] pts[i]).temp_mdeg <= (#[trigger] pts[j]).temp_mdeg
            &&& pts[i].duty_pct <= pts[j].duty_pct
        } by {
            lemma_steps_chain(pts, i, j);
        }
    }
    if ascending_curve(pts) {
        assert forall|k: int| 0 <= k < pts.len() - 1 implies #[trigger] step_ok(pts, k) by {
            assert(pts[k].temp_mdeg <= pts[k + 1].temp_mdeg);
        }
    }
}

pub open spec fn curve_error_text(e: CurveError) -> Seq<char> {
    match e {
        CurveError::NoPoints => "curve has no points"@,
        CurveError::TempOutOfRange { temp_mdeg } => "curve point temp_c="@ + millideg_text(
            temp_mdeg as int,
        ) + " out of sane range"@,
        CurveError::DutyTooHigh { duty_pct } => "curve point duty_pct="@ + decimal(
            duty_pct as nat,
        ) + " exceeds 100"@,
        CurveError::Unsorted { before_mdeg, temp_mdeg } => "curve points must be sorted ascending by temp_c: temp_c="@
            + millideg_text(temp_mdeg as int) + " follows temp_c="@ + millideg_text(
            before_mdeg as int,
        ),
        CurveError::DutyDrops { from_pct, from_mdeg, to_pct, to_mdeg } => "curve is non-monotonic: duty drops from "@
            + decimal(from_pct as nat) + "% at "@ + millideg_text(from_mdeg as int) + "C to "@
            + decimal(to_pct as nat) + "% at "@ + millideg_text(to_mdeg as int) + "C"@,
    }
}

impl CurveError {
    fn push_message(&self, out: &mut Vec<char>)
        ensures
            final(out)@ == old(out)@ + curve_error_text(*self),
    {
        let ghost start = out@;
        match self {
            CurveError::NoPoints => push_str(out, "curve has no points"),
            CurveError::TempOutOfRange { temp_mdeg } => {
                push_str(out, "curve point temp_c=");
                push_millideg(out, *temp_mdeg);
                push_str(out, " out of sane range");
            },
            CurveError::DutyTooHigh { duty_pct } => {
                push_str(out, "curve point duty_pct=");
                push_decimal(out, *duty_pct as u64);
                push_str(out, " exceeds 100");
            },
            CurveError::Unsorted { before_mdeg, temp_mdeg } => {
                push_str(out, "curve points must be sorted ascending by temp_c: temp_c=");
                push_millideg(out, *temp_mdeg);
                push_str(out, " follows temp_c=");
                push_millideg(out, *before_mdeg);
            },
            CurveError::DutyDrops { from_pct, from_mdeg, to_pct, to_mdeg } => {
                push_str(out, "curve is non-monotonic: duty drops from ");
                push_decimal(out, *from_pct as u64);
                push_str(out, "% at ");
                push_millideg(out, *from_mdeg);
                push_str(out, "C to ");
                push_decimal(out, *to_pct as u64);
                push_str(out, "% at ");
                push_millideg(out, *to_mdeg);
                push_str(out, "C");
            },
        }
        proof {
            assert(out@ =~= start + curve_error_text(*self));
        }
    }

    /// The message reported for this error.
    pub fn message(&self) -> (s: String)
        ensures
            s@ == curve_error_text(*self),
    {
        let mut v: Vec<char> = Vec::new();
        self.push_message(&mut v);
        string_from_chars(&v)
    }
}

/// A channel's curve. Points are expected in ascending temperature order.
#[derive(Clone, Debug)]
pub struct ChannelCurve {
    /// Which temperature reading this curve reacts to.
    pub temp_source: TempSource,
    pub points: Vec<CurvePoint>,
}

impl ChannelCurve {
    /// Linear interpolation between the two nearest curve points. Below the
    /// lowest point's temperature the lowest point's duty applies, above the
    /// highest point's temperature the highest point's duty; an empty curve
    /// fails safe to 100%.
    pub fn duty_for_temp(&self, temp_mdeg: i32) -> (d: u8)
        ensures
            d == curve_duty(self.points@, temp_mdeg as int),
    {
        let n = self.points.len();
        if n == 0 {
            return 100;
        }
        if temp_mdeg <= self.points[0].temp_mdeg {
            return self.points[0].duty_pct;
        }
        if temp_mdeg >= self.points[n - 1].temp_mdeg {
            return self.points[n - 1].duty_pct;
        }
        let ghost pts = self.points@;
        let mut i: usize = 0;
        while i + 1 < n
            invariant
                n == pts.len(),
                pts == self.points@,
                i < n,
                n > 0,
                pts[0].temp_mdeg < temp_mdeg < pts[n - 1].temp_mdeg,
                window_duty(pts, temp_mdeg as int, 0) == window_duty(pts, temp_mdeg as int, i as int),
            decreases n - i,
        {
            let a = self.points[i];
            let b = self.points[i + 1];
            if a.temp_mdeg <= temp_mdeg && temp_mdeg <= b.temp_mdeg {
                assert(window_duty(pts, temp_mdeg as int, i as int) == interp_duty(
                    pts[i as int],
                    pts[i + 1],
                    temp_mdeg as int,
                ));
                return interpolate(a, b, temp_mdeg);
            }
            assert(window_duty(pts, temp_mdeg as int, i as int) == window_duty(
                pts,
                temp_mdeg as int,
                i + 1,
            ));
            i = i + 1;
        }
        100
    }

    /// Validation of a curve before it drives the hardware: it must have at
    /// least one point, every point's temperature must lie within
    /// 0..=150 degrees and its duty must not exceed 100%, and the points
    /// must come in ascending order of temperature with a duty that never
    /// drops as the temperature rises. A malformed curve is refused, not
    /// applied; the first offending point, then the first offending step,
    /// is reported.
    pub fn validate(&self) -> (r: Result<(), CurveError>)
        ensures
            r == curve_check(self.points@),
            r is Ok <==> valid_curve(self.points@),
    {
        let n = self.points.len();
        let ghost pts = self.points@;
        proof {
            lemma_first_point_error(pts, 0);
            lemma_first_step_error(pts, 0);
            lemma_steps_ascending(pts);
        }
        if n == 0 {
            return Err(CurveError::NoPoints);
        }
        let mut i: usize = 0;
        while i < n
            invariant
                n == pts.len(),
                pts == self.points@,
                n > 0,
                i <= n,
                first_point_error(pts, 0) == first_point_error(pts, i as int),
            decreases n - i,
        {
            let p = self.points[i];
            if !(0 <= p.temp_mdeg && p.temp_mdeg <= CURVE_TEMP_MAX_MDEG) {
                return Err(CurveError::TempOutOfRange { temp_mdeg: p.temp_mdeg });
            }
            if p.duty_pct > 100 {
                return Err(CurveError::DutyTooHigh { duty_pct: p.duty_pct });
            }
            i = i + 1;
        }
        let mut j: usize = 1;
        while j < n
            invariant
                n == pts.len(),
                pts == self.points@,
                1 <= j <= n,
                first_point_error(pts, 0) is None,
                first_step_error(pts, 0) == first_step_error(pts, j - 1),
            decreases n - j,
        {
            let a = self.points[j - 1];
            let b = self.points[j];
            if b.temp_mdeg < a.temp_mdeg {
                return Err(CurveError::Unsorted { before_mdeg: a.temp_mdeg, temp_mdeg: b.temp_mdeg });
            }
            if b.duty_pct < a.duty_pct {
                return Err(
                    CurveError::DutyDrops {
                        from_pct: a.duty_pct,
                        from_mdeg: a.temp_mdeg,
                        to_pct: b.duty_pct,
                        to_mdeg: b.temp_mdeg,
                    },
                );
            }
            j = j + 1;
        }
        Ok(())
    }
}

/// Points with temperature `k`.
pub open spec fn at_temp(k: i32) -> spec_fn(CurvePoint) -> bool {
    |p: CurvePoint| p.temp_mdeg == k
}

/// Temperatures non-decreasing along the sequence.
pub open spec fn sorted_by_temp(s: Seq<CurvePoint>) -> bool {
    forall|i: int, j: int|
        0 <= i <= j < s.len() ==> (#[trigger] s[i]).temp_mdeg <= (#[trigger] s[j]).temp_mdeg
}

/// `out` is `inp` stably sorted by temperature: ascending temperatures, and
/// for every temperature the points that have it appear in `out` exactly
/// as, and in the order, they appear in `inp`.
pub open spec fn stable_sorted(out: Seq<CurvePoint>, inp: Seq<CurvePoint>) -> bool {
    &&& sorted_by_temp(out)
    &&& forall|k: i32| #[trigger] out.filter(at_temp(k)) == inp.filter(at_temp(k))
}

/// Sorts points by temperature, keeping points of equal temperature in
/// their given order.
pub fn sort_by_temp(points: &Vec<CurvePoint>) -> (out: Vec<CurvePoint>)
    ensures
        stable_sorted(out@, points@),
        out@.len() == points@.len(),
{
    let n = points.len();
    let mut out: Vec<CurvePoint> = Vec::new();
    let mut i: usize = 0;
    assert(points@.take(0) == Seq::<CurvePoint>::empty());
    assert forall|k: i32| #[trigger] out@.filter(at_temp(k)) == points@.take(0).filter(at_temp(k)) by {
        reveal(Seq::filter);
    }
    while i < n
        invariant
            n == points@.len(),
            i <= n,
            out@.len() == i,
            sorted_by_temp(out@),
            forall|k: i32| #[trigger] out@.filter(at_temp(k)) == points@.take(i as int).filter(at_temp(k)),
        decreases n - i,
    {
        let x = points[i];
        let mut pos: usize = out.len();
        while pos > 0 && out[pos - 1].temp_mdeg > x.temp_mdeg
            invariant
                pos <= out@.len(),
                sorted_by_temp(out@),
                forall|j: int| pos <= j < out@.len() ==> (#[trigger] out@[j]).temp_mdeg > x.temp_mdeg,
            decreases pos,
        {
            pos = pos - 1;
        }
        let ghost old_out = out@;
        let ghost a = old_out.subrange(0, pos as int);
        let ghost b = old_out.subrange(pos as int, old_out.len() as int);
        out.insert(pos, x);
        proof {
            assert(old_out == a + b);
            assert(out@ == a + seq![x] + b);
            assert(points@.take(i + 1) == points@.take(i as int).push(x));
            assert forall|k: i32| #[trigger] out@.filter(at_temp(k)) == points@.take(i + 1).filter(at_temp(k)) by {
                Seq::filter_distributes_over_add(a, b, at_temp(k));
                Seq::filter_distributes_over_add(a + seq![x], b, at_temp(k));
                Seq::filter_distributes_over_add(a, seq![x], at_temp(k));
                points@.take(i as int).lemma_filter_push(x, at_temp(k));
                reveal(Seq::filter);
                assert(seq![x].drop_last() == Seq::<CurvePoint>::empty());
                if k == x.temp_mdeg {
                    assert(b.all(|y: CurvePoint| !at_temp(k)(y)));
                    b.lemma_all_neg_filter_empty(at_temp(k));
                    assert(b.filter(at_temp(k)) == Seq::<CurvePoint>::empty());
                }
            }
            assert forall|p: int, q: int| 0 <= p <= q < out@.len() implies (#[trigger] out@[p]).temp_mdeg
                <= (#[trigger] out@[q]).temp_mdeg by {
                if p < pos && q > pos {
                    assert(out@[p] == old_out[p]);
                    assert(out@[q] == old_out[q - 1]);
                } else if p < pos && q == pos {
                    assert(out@[p] == old_out[p]);
                    if pos > 0 {
                        assert(old_out[p].temp_mdeg <= old_out[pos - 1].temp_mdeg);
                    }
                } else if p == pos && q > pos {
                    assert(out@[q] == old_out[q - 1]);
                } else if p < pos {
                    assert(out@[p] == old_out[p]);
                    assert(out@[q] == old_out[q]);
                } else if p > pos {
                    assert(out@[p] == old_out[p - 1]);
                    assert(out@[q] == old_out[q - 1]);
                }
            }
        }
        i = i + 1;
    }
    assert(points@.take(n as int) == points@);
    out
}


proof fn lemma_last_of_filter(s: Seq<CurvePoint>, k: i32)
    requires
        s.len() > 0,
        s.last().temp_mdeg == k,
    ensures
        s.filter(at_temp(k)) == s.drop_last().filter(at_temp(k)).push(s.last()),
{
    assert(s == s.drop_last().push(s.last()));
    s.drop_last().lemma_filter_push(s.last(), at_temp(k));
}

proof fn lemma_has_temp(s: Seq<CurvePoint>, k: i32, i: int)
    requires
        0 <= i < s.len(),
        s[i].temp_mdeg == k,
    ensures
        s.filter(at_temp(k)).len() > 0,
{
    s.lemma_filter_contains(at_temp(k), i);
}

proof fn lemma_filter_nonempty_has_temp(s: Seq<CurvePoint>, k: i32) -> (i: int)
    requires
        s.filter(at_temp(k)).len() > 0,
    ensures
        0 <= i < s.len(),
        s[i].temp_mdeg == k,
{
    let f = s.filter(at_temp(k));
    s.lemma_filter_pred(at_temp(k), 0);
    assert(f.contains(f[0]));
    s.lemma_filter_contains_rev(at_temp(k), f[0]);
    choose|i: int| 0 <= i < s.len() && s[i] == f[0]
}

/// Stably sorting points that are already in ascending temperature order
/// leaves them exactly as they were.
pub proof fn lemma_stable_sort_of_sorted_is_identity(out: Seq<CurvePoint>, inp: Seq<CurvePoint>)
    requires
        sorted_by_temp(inp),
        stable_sorted(out, inp),
    ensures
        out == inp,
    decreases inp.len(),
{
    if inp.len() == 0 {
        if out.len() > 0 {
            lemma_has_temp(out, out[0].temp_mdeg, 0);
            assert(out.filter(at_temp(out[0].temp_mdeg)) == inp.filter(at_temp(out[0].temp_mdeg)));
            reveal(Seq::filter);
            assert(false);
        }
        assert(out =~= inp);
    } else {
        let m = inp.last().temp_mdeg;
        lemma_has_temp(inp, m, inp.len() - 1);
        assert(out.filter(at_temp(m)) == inp.filter(at_temp(m)));
        let i = lemma_filter_nonempty_has_temp(out, m);
        let kk = out.last().temp_mdeg;
        assert(out.last() == out[out.len() - 1]);
        assert(out[i].temp_mdeg <= out[out.len() - 1].temp_mdeg);
        lemma_has_temp(out, kk, out.len() - 1);
        assert(out.filter(at_temp(kk)) == inp.filter(at_temp(kk)));
        let j = lemma_filter_nonempty_has_temp(inp, kk);
        assert(inp[j].temp_mdeg <= inp[inp.len() - 1].temp_mdeg);
        assert(kk == m);
        lemma_last_of_filter(out, m);
        lemma_last_of_filter(inp, m);
        let fo = out.filter(at_temp(m));
        assert(fo == out.drop_last().filter(at_temp(m)).push(out.last()));
        assert(fo.last() == out.last());
        assert(fo == inp.drop_last().filter(at_temp(m)).push(inp.last()));
        assert(fo.last() == inp.last());
        assert(out.last() == inp.last());
        let o2 = out.drop_last();
        let i2 = inp.drop_last();
        assert forall|k: i32| #[trigger] o2.filter(at_temp(k)) == i2.filter(at_temp(k)) by {
            assert(out == o2.push(out.last()));
            assert(inp == i2.push(inp.last()));
            o2.lemma_filter_push(out.last(), at_temp(k));
            i2.lemma_filter_push(inp.last(), at_temp(k));
            assert(out.filter(at_temp(k)) == inp.filter(at_temp(k)));
            if k == m {
                assert(o2.filter(at_temp(k)) == out.filter(at_temp(k)).drop_last());
                assert(i2.filter(at_temp(k)) == inp.filter(at_temp(k)).drop_last());
            }
        }
        assert forall|p: int, q: int| 0 <= p <= q < o2.len() implies (#[trigger] o2[p]).temp_mdeg
            <= (#[trigger] o2[q]).temp_mdeg by {
            assert(o2[p] == out[p] && o2[q] == out[q]);
        }
        assert forall|p: int, q: int| 0 <= p <= q < i2.len() implies (#[trigger] i2[p]).temp_mdeg
            <= (#[trigger] i2[q]).temp_mdeg by {
            assert(i2[p] == inp[p] && i2[q] == inp[q]);
        }
        lemma_stable_sort_of_sorted_is_identity(o2, i2);
        assert(out == o2.push(out.last()));
        assert(inp == i2.push(inp.last()));
    }
}

/// Identifies the hwmon device by its declared `name`, not by path: hwmonN
/// numbers shift across reboots, so the path is resolved at startup.
#[derive(Clone, Debug)]
pub struct HwmonPaths {
    pub device_name: String,
}

/// LCD gauge settings: off unless enabled, showing the chosen source.
#[derive(Clone, Copy, Debug, PartialEq, Eq, Structural)]
pub struct LcdConfig {
    pub enabled: bool,
    pub source: TempSource,
}

impl Default for LcdConfig {
    fn default() -> (c: Self)
        ensures
            !c.enabled,
            c.source == TempSource::Liquid,
    {
        LcdConfig { enabled: false, source: TempSource::default() }
    }
}

/// The daemon's configuration.
#[derive(Clone, Debug)]
pub struct Config {
    pub hwmon: HwmonPaths,
    pub mode: ModeConfig,
    pub pump_curve: ChannelCurve,
    pub fan_curve: ChannelCurve,
    /// How often the daemon polls temperatures and re-evaluates, in ms.
    pub poll_interval_ms: u64,
    pub lcd: LcdConfig,
}

/// Why a configuration was refused.
#[derive(Clone, Copy, Debug, PartialEq, Eq, Structural)]
pub enum ConfigError {
    Curve(CurveError),
    FailsafeTooLow { failsafe_temp_mdeg: i32 },
}

/// Outcome of validating a configuration: the pump curve first, then the
/// fan curve, then the failsafe ceiling's floor of 40 degrees.
pub open spec fn config_check(cfg: Config) -> Result<(), ConfigError> {
    match curve_check(cfg.pump_curve.points@) {
        Err(e) => Err(ConfigError::Curve(e)),
        Ok(_) => match curve_check(cfg.fan_curve.points@) {
            Err(e) => Err(ConfigError::Curve(e)),
            Ok(_) => if cfg.mode.failsafe_temp_mdeg < FAILSAFE_FLOOR_MDEG {
                Err(
                    ConfigError::FailsafeTooLow {
                        failsafe_temp_mdeg: cfg.mode.failsafe_temp_mdeg,
                    },
                )
            } else {
                Ok(())
            },
        },
    }
}

/// A configuration the daemon accepts.
pub open spec fn valid_config(cfg: Config) -> bool {
    &&& valid_curve(cfg.pump_curve.points@)
    &&& valid_curve(cfg.fan_curve.points@)
    &&& cfg.mode.failsafe_temp_mdeg >= FAILSAFE_FLOOR_MDEG
}

pub open spec fn config_error_text(e: ConfigError) -> Seq<char> {
    match e {
        ConfigError::Curve(c) => curve_error_text(c),
        ConfigError::FailsafeTooLow { failsafe_temp_mdeg } => "mode.failsafe_temp_c="@
            + millideg_text(failsafe_temp_mdeg as int)
            + " is suspiciously low (min allowed: 40.0) - refusing to load, this would make the safety override fire during normal operation"@,
    }
}

impl ConfigError {
    /// The message reported for this error.
    pub fn message(&self) -> (s: String)
        ensures
            s@ == config_error_text(*self),
    {
        let mut v: Vec<char> = Vec::new();
        match self {
            ConfigError::Curve(c) => c.push_message(&mut v),
            ConfigError::FailsafeTooLow { failsafe_temp_mdeg } => {
                push_str(&mut v, "mode.failsafe_temp_c=");
                push_millideg(&mut v, *failsafe_temp_mdeg);
                push_str(
                    &mut v,
                    " is suspiciously low (min allowed: 40.0) - refusing to load, this would make the safety override fire during normal operation",
                );
            },
        }
        string_from_chars(&v)
    }
}

impl Config {
    /// Checks a configuration before it is applied: both curves must pass
    /// [`ChannelCurve::validate`], and the failsafe ceiling must be at least
    /// 40 degrees (a typo such as 6 for 60 would otherwise make the
    /// override fire during normal operation).
    pub fn validate(&self) -> (r: Result<(), ConfigError>)
        ensures
            r == config_check(*self),
            r is Ok <==> valid_config(*self),
    {
        match self.pump_curve.validate() {
            Err(e) => return Err(ConfigError::Curve(e)),
            Ok(()) => {},
        }
        match self.fan_curve.validate() {
            Err(e) => return Err(ConfigError::Curve(e)),
            Ok(()) => {},
        }
        if self.mode.failsafe_temp_mdeg < FAILSAFE_FLOOR_MDEG {
            return Err(
                ConfigError::FailsafeTooLow { failsafe_temp_mdeg: self.mode.failsafe_temp_mdeg },
            );
        }
        Ok(())
    }

    /// Where the daemon and the GUI look for the configuration file.
    pub fn default_path() -> (p: &'static str)
        ensures
            p@ == "/etc/nzxt-ctl/config.toml"@,
    {
        "/etc/nzxt-ctl/config.toml"
    }
}


pub open spec fn brackets(pts: Seq<CurvePoint>, t: int, i: int) -> bool {
    pts[i].temp_mdeg <= t <= pts[i + 1].temp_mdeg
}

/// Index of the first pair of neighbours, at `i` or later, that brackets `t`;
/// the curve's length if there is none.
pub open spec fn first_bracket(pts: Seq<CurvePoint>, t: int, i: int) -> int
    decreases pts.len() - i,
{
    if i < 0 || i + 1 >= pts.len() {
        pts.len() as int
    } else if brackets(pts, t, i) {
        i
    } else {
        first_bracket(pts, t, i + 1)
    }
}

proof fn lemma_first_bracket(pts: Seq<CurvePoint>, t: int, i: int)
    requires
        0 <= i,
    ensures
        ({
            let k = first_bracket(pts, t, i);
            &&& k == pts.len() || (i <= k && k + 1 < pts.len() && brackets(pts, t, k))
            &&& forall|j: int| i <= j < k && j + 1 < pts.len() ==> !brackets(pts, t, j)
            &&& window_duty(pts, t, i) == (if k + 1 < pts.len() {
                interp_duty(pts[k], pts[k + 1], t)
            } else {
                100
            })
        }),
    decreases pts.len() - i,
{
    if i + 1 < pts.len() && !brackets(pts, t, i) {
        lemma_first_bracket(pts, t, i + 1);
    }
}

/// Inside the curve's range an ascending curve always has a bracketing pair.
proof fn lemma_bracket_exists(pts: Seq<CurvePoint>, t: int, i: int)
    requires
        ascending_curve(pts),
        0 <= i < pts.len() - 1,
        pts[i].temp_mdeg <= t < pts.last().temp_mdeg,
    ensures
        first_bracket(pts, t, i) < pts.len() - 1,
    decreases pts.len() - i,
{
    if !brackets(pts, t, i) {
        assert(pts[i + 1].temp_mdeg < t);
        lemma_bracket_exists(pts, t, i + 1);
    }
}

proof fn lemma_round_bounds(num: int, den: int, lo: int, hi: int)
    requires
        den > 0,
        0 <= lo <= hi,
        lo * den <= num <= hi * den,
    ensures
        lo <= round_half_away(num, den) <= hi,
{
    assert(num >= 0) by (nonlinear_arith)
        requires
            lo * den <= num,
            lo >= 0,
            den > 0,
    ;
    let q = (2 * num + den) / (2 * den);
    assert(lo <= q <= hi) by (nonlinear_arith)
        requires
            q == (2 * num + den) / (2 * den),
            den > 0,
            lo * den <= num <= hi * den,
    ;
}

proof fn lemma_round_monotone(n1: int, n2: int, den: int)
    requires
        den > 0,
        0 <= n1 <= n2,
    ensures
        round_half_away(n1, den) <= round_half_away(n2, den),
{
    vstd::arithmetic::div_mod::lemma_div_is_ordered(2 * n1 + den, 2 * n2 + den, 2 * den);
}

/// On a segment whose duty rises, the interpolated duty stays within the
/// segment's two duties.
proof fn lemma_interp_bounds(a: CurvePoint, b: CurvePoint, t: int)
    requires
        a.temp_mdeg <= t <= b.temp_mdeg,
        a.duty_pct <= b.duty_pct <= 100,
    ensures
        a.duty_pct <= interp_duty(a, b, t) <= b.duty_pct,
{
    let span = b.temp_mdeg - a.temp_mdeg;
    if span > 0 {
        let ad = a.duty_pct as int;
        let bd = b.duty_pct as int;
        let dt = t - a.temp_mdeg;
        let num = ad * span + dt * (bd - ad);
        assert(ad * span <= num <= bd * span) by (nonlinear_arith)
            requires
                num == ad * span + dt * (bd - ad),
                0 <= dt <= span,
                ad <= bd,
        ;
        lemma_round_bounds(num, span, ad, bd);
    }
}

/// On a segment whose duty rises, the interpolated duty rises with temperature.
proof fn lemma_interp_monotone(a: CurvePoint, b: CurvePoint, t1: int, t2: int)
    requires
        a.temp_mdeg <= t1 <= t2 <= b.temp_mdeg,
        a.duty_pct <= b.duty_pct <= 100,
    ensures
        interp_duty(a, b, t1) <= interp_duty(a, b, t2),
{
    let span = b.temp_mdeg - a.temp_mdeg;
    if span > 0 {
        let ad = a.duty_pct as int;
        let bd = b.duty_pct as int;
        let n1 = ad * span + (t1 - a.temp_mdeg) * (bd - ad);
        let n2 = ad * span + (t2 - a.temp_mdeg) * (bd - ad);
        assert(0 <= n1 <= n2) by (nonlinear_arith)
            requires
                n1 == ad * span + (t1 - a.temp_mdeg) * (bd - ad),
                n2 == ad * span + (t2 - a.temp_mdeg) * (bd - ad),
                a.temp_mdeg <= t1 <= t2,
                0 <= ad <= bd,
                span > 0,
        ;
        lemma_round_monotone(n1, n2, span);
        lemma_interp_bounds(a, b, t1);
        lemma_interp_bounds(a, b, t2);
    }
}

/// Every duty of the curve at most 100%.
pub open spec fn duties_at_most_100(pts: Seq<CurvePoint>) -> bool {
    forall|i: int| 0 <= i < pts.len() ==> (#[trigger] pts[i]).duty_pct <= 100
}

/// Strictly inside an ascending curve's range, the duty lies within the
/// duties of the pair of points that brackets the temperature.
proof fn lemma_inner_duty(pts: Seq<CurvePoint>, t: int) -> (k: int)
    requires
        ascending_curve(pts),
        duties_at_most_100(pts),
        pts.len() > 0,
        pts[0].temp_mdeg < t < pts.last().temp_mdeg,
    ensures
        0 <= k < pts.len() - 1,
        k == first_bracket(pts, t, 0),
        brackets(pts, t, k),
        curve_duty(pts, t) == interp_duty(pts[k], pts[k + 1], t),
        pts[k].duty_pct <= curve_duty(pts, t) <= pts[k + 1].duty_pct,
{
    lemma_bracket_exists(pts, t, 0);
    lemma_first_bracket(pts, t, 0);
    let k = first_bracket(pts, t, 0);
    assert(pts[k + 1].duty_pct <= 100);
    assert(pts[k].duty_pct <= pts[k + 1].duty_pct);
    lemma_interp_bounds(pts[k], pts[k + 1], t);
    k
}

/// A validated curve never asks for more than 100% duty.
pub proof fn lemma_valid_curve_duty_at_most_100(pts: Seq<CurvePoint>, t: int)
    requires
        valid_curve(pts),
    ensures
        0 <= curve_duty(pts, t) <= 100,
{
    assert(point_error(pts[0]) is None);
    assert(point_error(pts[pts.len() - 1]) is None);
    if pts[0].temp_mdeg < t < pts.last().temp_mdeg {
        lemma_first_bracket(pts, t, 0);
        let k = first_bracket(pts, t, 0);
        if k + 1 < pts.len() {
            assert(point_error(pts[k]) is None);
            let a = pts[k];
            let b = pts[k + 1];
            if b.temp_mdeg - a.temp_mdeg > 0 {
                assert(clamp_pct(
                    round_half_away(
                        a.duty_pct * (b.temp_mdeg - a.temp_mdeg) + (t - a.temp_mdeg) * (
                        b.duty_pct - a.duty_pct),
                        b.temp_mdeg - a.temp_mdeg,
                    ),
                ) <= 100);
            }
        }
    }
}

/// On a curve whose temperatures and duties both ascend and whose duties
/// stay within 100%, the duty asked for at any temperature lies between the
/// coldest point's duty and the hottest point's duty.
pub proof fn lemma_ascending_curve_duty_between_ends(pts: Seq<CurvePoint>, t: int)
    requires
        pts.len() > 0,
        ascending_curve(pts),
        duties_at_most_100(pts),
    ensures
        pts[0].duty_pct <= curve_duty(pts, t) <= pts.last().duty_pct,
{
    let n = pts.len();
    assert(pts.last() == pts[n - 1]);
    assert(pts[0].duty_pct <= pts[n - 1].duty_pct);
    if pts[0].temp_mdeg < t < pts.last().temp_mdeg {
        let k = lemma_inner_duty(pts, t);
        assert(pts[0].duty_pct <= pts[k].duty_pct);
        assert(pts[k + 1].duty_pct <= pts[n - 1].duty_pct);
    }
}

/// On a curve whose temperatures and duties both ascend and whose duties
/// stay within 100%, a hotter reading never gets less cooling: the duty is
/// monotone in the temperature.
pub proof fn lemma_ascending_curve_duty_monotone(pts: Seq<CurvePoint>, t1: int, t2: int)
    requires
        ascending_curve(pts),
        duties_at_most_100(pts),
        t1 <= t2,
    ensures
        curve_duty(pts, t1) <= curve_duty(pts, t2),
{
    let n = pts.len();
    if n == 0 {
        return;
    }
    let first = pts[0];
    let last = pts.last();
    assert(pts.last() == pts[n - 1]);
    assert(first.duty_pct <= last.duty_pct);
    if t2 <= first.temp_mdeg || t1 >= last.temp_mdeg {
    } else if t1 <= first.temp_mdeg {
        if t2 < last.temp_mdeg {
            let k2 = lemma_inner_duty(pts, t2);
            assert(pts[0].duty_pct <= pts[k2].duty_pct);
        }
    } else if t2 >= last.temp_mdeg {
        let k1 = lemma_inner_duty(pts, t1);
        assert(pts[k1 + 1].duty_pct <= pts[n - 1].duty_pct);
    } else {
        let k1 = lemma_inner_duty(pts, t1);
        let k2 = lemma_inner_duty(pts, t2);
        lemma_first_bracket(pts, t1, 0);
        if k2 < k1 {
            assert(!brackets(pts, t1, k2));
            assert(pts[k2].temp_mdeg <= pts[k1].temp_mdeg);
            assert(false);
        } else if k1 == k2 {
            assert(pts[k1].duty_pct <= pts[k1 + 1].duty_pct);
            lemma_interp_monotone(pts[k1], pts[k1 + 1], t1, t2);
        } else {
            assert(pts[k1 + 1].duty_pct <= pts[k2].duty_pct);
        }
    }
}

/// A curve that validation accepts never gives less cooling at a hotter
/// reading, and never leaves the range of duties its points set.
pub proof fn lemma_validated_curve_duty_monotone(pts: Seq<CurvePoint>, t1: int, t2: int)
    requires
        valid_curve(pts),
        t1 <= t2,
    ensures
        curve_duty(pts, t1) <= curve_duty(pts, t2),
        pts[0].duty_pct <= curve_duty(pts, t1),
        curve_duty(pts, t2) <= pts.last().duty_pct,
{
    assert forall|i: int| 0 <= i < pts.len() implies (#[trigger] pts[i]).duty_pct <= 100 by {
        assert(point_error(pts[i]) is None);
    }
    lemma_ascending_curve_duty_monotone(pts, t1, t2);
    lemma_ascending_curve_duty_between_ends(pts, t1);
    lemma_ascending_curve_duty_between_ends(pts, t2);
}

/// Temperatures strictly increasing along the curve.
pub open spec fn strictly_ascending_temps(pts: Seq<CurvePoint>) -> bool {
    forall|i: int, j: int|
        0 <= i < j < pts.len() ==> (#[trigger] pts[i]).temp_mdeg < (#[trigger] pts[j]).temp_mdeg
}

/// The interpolation passes through the configured points: on a validated
/// curve whose temperatures strictly increase, the duty at a point's
/// temperature is that point's duty.
pub proof fn lemma_duty_at_curve_point(pts: Seq<CurvePoint>, i: int)
    requires
        valid_curve(pts),
        strictly_ascending_temps(pts),
        0 <= i < pts.len(),
    ensures
        curve_duty(pts, pts[i].temp_mdeg as int) == pts[i].duty_pct,
{
    let t = pts[i].temp_mdeg as int;
    let n = pts.len();
    assert(pts.last() == pts[n - 1]);
    if i == 0 || i == n - 1 {
        if i == n - 1 && n > 1 {
            assert(pts[0].temp_mdeg < pts[n - 1].temp_mdeg);
        }
    } else {
        assert(pts[0].temp_mdeg < t < pts[n - 1].temp_mdeg);
        lemma_first_bracket(pts, t, 0);
        let k = first_bracket(pts, t, 0);
        assert(brackets(pts, t, i - 1));
        if k < i - 1 {
            assert(brackets(pts, t, k));
            assert(pts[k + 1].temp_mdeg < pts[i].temp_mdeg);
            assert(false);
        }
        if k > i - 1 {
            assert(!brackets(pts, t, i - 1));
            assert(false);
        }
        let a = pts[i - 1];
        let b = pts[i];
        let span = b.temp_mdeg - a.temp_mdeg;
        assert(point_error(b) is None);
        let bd = b.duty_pct as int;
        assert(a.duty_pct * span + (t - a.temp_mdeg) * (b.duty_pct - a.duty_pct) == bd * span)
            by (nonlinear_arith)
            requires
                t == b.temp_mdeg,
                span == b.temp_mdeg - a.temp_mdeg,
                bd == b.duty_pct,
        ;
        assert((2 * (bd * span) + span) / (2 * span) == bd) by (nonlinear_arith)
            requires
                span > 0,
                bd >= 0,
        ;
    }
}

/// What validation accepts, stated point by point: a curve passes exactly
/// when it has a point, every point's temperature lies within 0..=150
/// degrees and its duty within 0..=100%, and no point is colder or asks for
/// less duty than one before it. A curve with a point outside those ranges
/// is refused with the complaint about the first such point.
pub proof fn lemma_curve_check_accepts_exactly(pts: Seq<CurvePoint>)
    ensures
        curve_check(pts) is Ok <==> {
            &&& pts.len() > 0
            &&& forall|i: int|
                0 <= i < pts.len() ==> 0 <= (#[trigger] pts[i]).temp_mdeg <= 150_000
                    && pts[i].duty_pct <= 100
            &&& forall|i: int, j: int|
                0 <= i <= j < pts.len() ==> (#[trigger] pts[i]).temp_mdeg
                    <= (#[trigger] pts[j]).temp_mdeg && pts[i].duty_pct <= pts[j].duty_pct
        },
        forall|i: int|
            0 <= i < pts.len() && !(0 <= #[trigger] pts[i].temp_mdeg <= 150_000) && (forall|j: int|
                0 <= j < i ==> 0 <= (#[trigger] pts[j]).temp_mdeg <= 150_000 && pts[j].duty_pct
                    <= 100) ==> curve_check(pts) == Err::<(), CurveError>(
                CurveError::TempOutOfRange { temp_mdeg: pts[i].temp_mdeg },
            ),
{
    lemma_first_point_error(pts, 0);
    lemma_first_step_error(pts, 0);
    lemma_steps_ascending(pts);
    assert forall|i: int|
        0 <= i < pts.len() && !(0 <= #[trigger] pts[i].temp_mdeg <= 150_000) && (forall|j: int|
            0 <= j < i ==> 0 <= (#[trigger] pts[j]).temp_mdeg <= 150_000 && pts[j].duty_pct
                <= 100) implies curve_check(pts) == Err::<(), CurveError>(
        CurveError::TempOutOfRange { temp_mdeg: pts[i].temp_mdeg },
    ) by {
        lemma_first_point_error_at(pts, 0, i);
    }
}

/// The first point error, from `k` on, is that of point `i` when every
/// point from `k` up to `i` is fine and point `i` is not.
proof fn lemma_first_point_error_at(pts: Seq<CurvePoint>, k: int, i: int)
    requires
        0 <= k <= i < pts.len(),
        point_error(pts[i]) is Some,
        forall|j: int| k <= j < i ==> point_error(#[trigger] pts[j]) is None,
    ensures
        first_point_error(pts, k) == point_error(pts[i]),
    decreases i - k,
{
    if k < i {
        assert(point_error(pts[k]) is None);
        lemma_first_point_error_at(pts, k + 1, i);
    }
}

} // verus!
