//! The LCD gauge's arithmetic: the range and label of each source, the
//! cool-to-hot accent colour, how much of the dotted ring is lit, the value
//! label and where the three pieces of text go. Drawing itself is left to
//! the caller.

use crate::config::{round_half_away, TempSource};
use crate::text::{decimal, push_decimal, string_from_chars};
use vstd::prelude::*;

verus! {

/// Gauge range (min, max) of a source in millidegrees: the min is idle,
/// the max is as hot as it should ever get.
pub open spec fn range_of(source: TempSource) -> (i32, i32) {
    match source {
        TempSource::Liquid => (20_000, 60_000),
        TempSource::Cpu => (30_000, 95_000),
        TempSource::Gpu => (30_000, 90_000),
    }
}

/// The gauge range of a source.
pub fn gauge_range(source: TempSource) -> (r: (i32, i32))
    ensures
        r == range_of(source),
{
    match source {
        TempSource::Liquid => (20_000, 60_000),
        TempSource::Cpu => (30_000, 95_000),
        TempSource::Gpu => (30_000, 90_000),
    }
}

pub open spec fn label_of(source: TempSource) -> Seq<char> {
    match source {
        TempSource::Liquid => "LIQUID"@,
        TempSource::Cpu => "CPU"@,
        TempSource::Gpu => "GPU"@,
    }
}

/// The small caption naming the source.
pub fn source_label(source: TempSource) -> (s: &'static str)
    ensures
        s@ == label_of(source),
{
    match source {
        TempSource::Liquid => "LIQUID",
        TempSource::Cpu => "CPU",
        TempSource::Gpu => "GPU",
    }
}

/// Where a reading, in microdegrees, sits in its source's range, as the
/// fraction `num / den` (microdegrees over the range's width) clamped to
/// 0..=1.
pub fn gauge_fraction(source: TempSource, temp_udeg: i64) -> (f: (u32, u32))
    ensures
        f.1 == (range_of(source).1 - range_of(source).0) * 1000,
        f.1 > 0,
        f.0 <= f.1,
        f.0 == (if temp_udeg <= range_of(source).0 * 1000 {
            0
        } else if temp_udeg >= range_of(source).1 * 1000 {
            f.1 as int
        } else {
            temp_udeg - range_of(source).0 * 1000
        }),
{
    let (min, max) = gauge_range(source);
    let lo = min as i64 * 1000;
    let hi = max as i64 * 1000;
    let den = (hi - lo) as u32;
    let num: u32 = if temp_udeg <= lo {
        0
    } else if temp_udeg >= hi {
        den
    } else {
        (temp_udeg - lo) as u32
    };
    (num, den)
}

/// Colour stops of the accent: cool blue, amber, hot red.
pub const COOL: [u8; 3] = [60, 140, 255];

pub const WARM: [u8; 3] = [255, 170, 40];

pub const HOT: [u8; 3] = [255, 60, 50];

/// One channel blended from `a` toward `b` by `l / den`, rounded.
pub open spec fn mix(a: u8, b: u8, l: int, den: int) -> int {
    round_half_away(a * den + (b - a) * l, den)
}

/// The accent colour at fraction `num / den`: blue to amber over the first
/// half, amber to red over the second, channel by channel; alpha is opaque.
pub open spec fn heat_rgba(num: int, den: int) -> Seq<int> {
    if 2 * num <= den {
        seq![
            mix(COOL[0], WARM[0], 2 * num, den),
            mix(COOL[1], WARM[1], 2 * num, den),
            mix(COOL[2], WARM[2], 2 * num, den),
            255,
        ]
    } else {
        seq![
            mix(WARM[0], HOT[0], 2 * num - den, den),
            mix(WARM[1], HOT[1], 2 * num - den, den),
            mix(WARM[2], HOT[2], 2 * num - den, den),
            255,
        ]
    }
}

fn mix_channel(a: u8, b: u8, l: u64, den: u64) -> (c: u8)
    requires
        0 < den <= 0x1_0000_0000,
        l <= den,
    ensures
        c == mix(a, b, l as int, den as int),
{
    let ai = a as i64;
    let bi = b as i64;
    let li = l as i64;
    let di = den as i64;
    assert(0 <= ai * di <= 255 * 0x1_0000_0000) by (nonlinear_arith)
        requires
            0 <= ai <= 255,
            0 < di <= 0x1_0000_0000,
    ;
    assert(-255 * 0x1_0000_0000 <= (bi - ai) * li <= 255 * 0x1_0000_0000) by (nonlinear_arith)
        requires
            -255 <= bi - ai <= 255,
            0 <= li <= 0x1_0000_0000,
    ;
    let num: i64 = ai * di + (bi - ai) * li;
    assert(0 <= num <= 255 * di) by (nonlinear_arith)
        requires
            num == ai * di + (bi - ai) * li,
            0 <= ai <= 255,
            0 <= bi <= 255,
            0 <= li <= di,
    ;
    let q: i64 = (2 * num + di) / (2 * di);
    assert(0 <= q <= 255) by (nonlinear_arith)
        requires
            q == (2 * num + di) / (2 * di),
            0 <= num <= 255 * di,
            di > 0,
    ;
    q as u8
}

/// The accent colour at fraction `num / den` of the gauge range, as RGBA.
pub fn heat_color(num: u32, den: u32) -> (c: [u8; 4])
    requires
        den > 0,
        num <= den,
    ensures
        forall|i: int| 0 <= i < 4 ==> c@[i] == heat_rgba(num as int, den as int)[i],
{
    let n = num as u64;
    let d = den as u64;
    if 2 * n <= d {
        [
            mix_channel(COOL[0], WARM[0], 2 * n, d),
            mix_channel(COOL[1], WARM[1], 2 * n, d),
            mix_channel(COOL[2], WARM[2], 2 * n, d),
            255,
        ]
    } else {
        [
            mix_channel(WARM[0], HOT[0], 2 * n - d, d),
            mix_channel(WARM[1], HOT[1], 2 * n - d, d),
            mix_channel(WARM[2], HOT[2], 2 * n - d, d),
            255,
        ]
    }
}

/// Number of dots around the ring.
pub const RING_DOTS: u32 = 48;

/// Dots lit for a reading at fraction `num / den`: the fraction of the ring,
/// rounded; none for an unknown reading.
pub fn lit_dots(fraction: Option<(u32, u32)>) -> (n: u32)
    requires
        fraction matches Some(f) ==> f.1 > 0 && f.0 <= f.1,
    ensures
        n == match fraction {
            Some(f) => round_half_away(f.0 * RING_DOTS, f.1 as int),
            None => 0,
        },
        n <= RING_DOTS,
{
    match fraction {
        Some((num, den)) => {
            let x = num as u64 * 48;
            let d = den as u64;
            let q = (2 * x + d) / (2 * d);
            assert(q <= 48) by (nonlinear_arith)
                requires
                    q == (2 * x + d) / (2 * d),
                    x == num * 48,
                    num <= d,
                    d > 0,
            ;
            q as u32
        },
        None => 0,
    }
}

/// `v / 1_000_000` rounded to the nearest integer, halves to even: how a
/// float prints with no decimals.
pub open spec fn round_half_even_millionths(v: int) -> int {
    let q = v / 1_000_000;
    let r = v % 1_000_000;
    if r < 500_000 {
        q
    } else if r > 500_000 {
        q + 1
    } else if q % 2 == 0 {
        q
    } else {
        q + 1
    }
}

/// The big number on the gauge: the reading (microdegrees) in whole
/// degrees, or `--`.
pub open spec fn value_text(temp: Option<i64>) -> Seq<char> {
    match temp {
        None => "--"@,
        Some(u) => if u < 0 {
            seq!['-'] + decimal(round_half_even_millionths(-u) as nat)
        } else {
            decimal(round_half_even_millionths(u as int) as nat)
        },
    }
}

/// The gauge's value label.
pub fn value_label(temp_udeg: Option<i64>) -> (s: String)
    ensures
        s@ == value_text(temp_udeg),
{
    match temp_udeg {
        None => String::from_str("--"),
        Some(u) => {
            let mut v: Vec<char> = Vec::new();
            let mag: u64 = if u < 0 {
                (0i128 - u as i128) as u64
            } else {
                u as u64
            };
            if u < 0 {
                v.push('-');
            }
            let q = mag / 1_000_000;
            let r = mag % 1_000_000;
            let whole = if r < 500_000 {
                q
            } else if r > 500_000 {
                q + 1
            } else if q % 2 == 0 {
                q
            } else {
                q + 1
            };
            push_decimal(&mut v, whole);
            string_from_chars(&v)
        },
    }
}

/// Integer division rounding toward zero, as `/` does on machine integers.
pub open spec fn div_toward_zero(a: int, b: int) -> int {
    if a >= 0 {
        a / b
    } else {
        -((-a) / b)
    }
}

/// Top-left corners of the gauge's value, caption and unit texts.
#[derive(Clone, Copy, Debug)]
pub struct TextLayout {
    pub value_x: i64,
    pub value_y: i64,
    pub caption_x: i64,
    pub caption_y: i64,
    pub unit_x: i64,
    pub unit_y: i64,
}

fn half_toward_zero(a: i64) -> (r: i64)
    requires
        -0x1_0000_0000_0000 <= a <= 0x1_0000_0000_0000,
    ensures
        r == div_toward_zero(a as int, 2),
{
    if a >= 0 {
        a / 2
    } else {
        0 - ((0 - a) / 2)
    }
}

/// Places the texts on a `width` x `height` frame given their measured
/// sizes: the value centred, a little above the middle; the caption
/// centred just above it; the unit centred just below it.
pub fn layout_text(
    width: u32,
    height: u32,
    value_size: (u32, u32),
    caption_size: (u32, u32),
    unit_width: u32,
) -> (l: TextLayout)
    ensures
        l.value_x == div_toward_zero(width - value_size.0, 2),
        l.value_y == div_toward_zero(height - value_size.1, 2) - height / 40,
        l.caption_x == div_toward_zero(width - caption_size.0, 2),
        l.caption_y == l.value_y - caption_size.1 - height / 40,
        l.unit_x == div_toward_zero(width - unit_width, 2),
        l.unit_y == l.value_y + value_size.1 + height / 60,
{
    let w = width as i64;
    let h = height as i64;
    let value_x = half_toward_zero(w - value_size.0 as i64);
    let value_y = half_toward_zero(h - value_size.1 as i64) - h / 40;
    let caption_x = half_toward_zero(w - caption_size.0 as i64);
    let caption_y = value_y - caption_size.1 as i64 - h / 40;
    let unit_x = half_toward_zero(w - unit_width as i64);
    let unit_y = value_y + value_size.1 as i64 + h / 60;
    TextLayout { value_x, value_y, caption_x, caption_y, unit_x, unit_y }
}


proof fn lemma_mix_ends(a: u8, b: u8, den: int)
    requires
        den > 0,
    ensures
        mix(a, b, 0, den) == a,
        mix(a, b, den, den) == b,
{
    assert((2 * (a * den) + den) / (2 * den) == a) by (nonlinear_arith)
        requires
            den > 0,
            a >= 0,
    ;
    assert(a * den + (b - a) * den == b * den) by (nonlinear_arith);
    assert((2 * (b * den) + den) / (2 * den) == b) by (nonlinear_arith)
        requires
            den > 0,
            b >= 0,
    ;
}

/// The accent runs from cool blue at the bottom of the range through amber
/// at its middle to hot red at its top.
pub proof fn lemma_heat_color_stops(den: int)
    requires
        den > 0,
    ensures
        heat_rgba(0, 2 * den) == seq![COOL[0] as int, COOL[1] as int, COOL[2] as int, 255],
        heat_rgba(den, 2 * den) == seq![WARM[0] as int, WARM[1] as int, WARM[2] as int, 255],
        heat_rgba(2 * den, 2 * den) == seq![HOT[0] as int, HOT[1] as int, HOT[2] as int, 255],
{
    let d = 2 * den;
    lemma_mix_ends(COOL[0], WARM[0], d);
    lemma_mix_ends(COOL[1], WARM[1], d);
    lemma_mix_ends(COOL[2], WARM[2], d);
    lemma_mix_ends(WARM[0], HOT[0], d);
    lemma_mix_ends(WARM[1], HOT[1], d);
    lemma_mix_ends(WARM[2], HOT[2], d);
    assert(heat_rgba(0, d) =~= seq![COOL[0] as int, COOL[1] as int, COOL[2] as int, 255]);
    assert(heat_rgba(den, d) =~= seq![WARM[0] as int, WARM[1] as int, WARM[2] as int, 255]);
    assert(heat_rgba(d, d) =~= seq![HOT[0] as int, HOT[1] as int, HOT[2] as int, 255]);
}

} // verus!
