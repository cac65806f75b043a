//! The hwmon side of the daemon: which sysfs files a channel or sensor
//! uses, what is written to them, and how their contents are read.

use crate::paths::{join_chars, join_path};
use crate::text::{
    chars_eq, chars_of, decimal, parse_i32, parse_integer, parse_u32, push_decimal, push_str,
    string_from_chars, trim, trimmed,
};
use vstd::prelude::*;

verus! {

/// `prefix` followed by the decimal `index` and `suffix`, e.g. `pwm2_enable`.
pub open spec fn indexed_name(prefix: Seq<char>, index: u8, suffix: Seq<char>) -> Seq<char> {
    prefix + decimal(index as nat) + suffix
}

fn indexed_file(base: &String, prefix: &str, index: u8, suffix: &str) -> (p: String)
    ensures
        p@ == join_path(base@, indexed_name(prefix@, index, suffix@)),
{
    let mut name: Vec<char> = Vec::new();
    push_str(&mut name, prefix);
    push_decimal(&mut name, index as u64);
    push_str(&mut name, suffix);
    let b = chars_of(base.as_str());
    string_from_chars(&join_chars(&b, &name))
}

/// One PWM channel of the hwmon device (pump = 1, fan = 2 on the Kraken).
#[derive(Clone, Debug)]
pub struct HwmonChannel {
    pub base: String,
    pub index: u8,
}

impl HwmonChannel {
    pub fn new(base_path: &str, index: u8) -> (c: Self)
        ensures
            c.base@ == base_path@,
            c.index == index,
    {
        HwmonChannel { base: String::from_str(base_path), index }
    }

    /// `<base>/pwm<index>`: the duty, 0..=255.
    pub fn pwm_path(&self) -> (p: String)
        ensures
            p@ == join_path(self.base@, indexed_name("pwm"@, self.index, Seq::empty())),
    {
        proof {
            reveal_strlit("");
        }
        indexed_file(&self.base, "pwm", self.index, "")
    }

    /// `<base>/pwm<index>_enable`: must read `1` (manual control) before
    /// duty writes take effect.
    pub fn pwm_enable_path(&self) -> (p: String)
        ensures
            p@ == join_path(self.base@, indexed_name("pwm"@, self.index, "_enable"@)),
    {
        indexed_file(&self.base, "pwm", self.index, "_enable")
    }

    /// `<base>/fan<index>_input`: the measured RPM.
    pub fn fan_input_path(&self) -> (p: String)
        ensures
            p@ == join_path(self.base@, indexed_name("fan"@, self.index, "_input"@)),
    {
        indexed_file(&self.base, "fan", self.index, "_input")
    }
}

/// A temperature input of a hwmon device, reporting millidegrees Celsius.
#[derive(Clone, Debug)]
pub struct TempSensor {
    pub path: String,
}

impl TempSensor {
    /// The sensor `<base>/temp<index>_input`.
    pub fn new(base_path: &str, index: u8) -> (s: Self)
        ensures
            s.path@ == join_path(base_path@, indexed_name("temp"@, index, "_input"@)),
    {
        let base = String::from_str(base_path);
        TempSensor { path: indexed_file(&base, "temp", index, "_input") }
    }
}

/// The 0..=255 PWM value for a duty percentage, capped at 100%.
pub open spec fn pwm_raw_value(duty_pct: u8) -> int {
    let d = if duty_pct > 100 {
        100
    } else {
        duty_pct as int
    };
    d * 255 / 100
}

/// Converts a duty percentage (capped at 100%) to the 0..=255 range the
/// kernel expects.
pub fn pwm_raw(duty_pct: u8) -> (raw: u8)
    ensures
        raw == pwm_raw_value(duty_pct),
{
    let d: u32 = if duty_pct > 100 {
        100
    } else {
        duty_pct as u32
    };
    ((d * 255) / 100) as u8
}

/// The text written to `pwm<index>` to apply a duty percentage.
pub fn pwm_text(duty_pct: u8) -> (s: String)
    ensures
        s@ == decimal(pwm_raw_value(duty_pct) as nat),
{
    let raw = pwm_raw(duty_pct);
    let mut v: Vec<char> = Vec::new();
    push_decimal(&mut v, raw as u64);
    string_from_chars(&v)
}

/// Whether manual control still has to be switched on, given the contents
/// of `pwm<index>_enable`: anything but `1` (around whitespace) means yes.
pub fn needs_manual_mode(enable_file: &str) -> (b: bool)
    ensures
        b == (trim(enable_file@) != "1"@),
{
    let t = trimmed(&chars_of(enable_file));
    let one = chars_of("1");
    !chars_eq(&t, &one)
}

/// The RPM in the contents of `fan<index>_input`, if they hold one.
pub fn parse_rpm(text: &str) -> (r: Option<u32>)
    ensures
        match parse_integer(trim(text@), false) {
            Some(v) => if 0 <= v <= u32::MAX {
                r == Some(v as u32)
            } else {
                r is None
            },
            None => r is None,
        },
{
    parse_u32(&trimmed(&chars_of(text)))
}

/// The temperature in millidegrees in the contents of `temp<index>_input`,
/// if they hold one.
pub fn parse_millideg(text: &str) -> (r: Option<i32>)
    ensures
        match parse_integer(trim(text@), true) {
            Some(v) => if i32::MIN <= v <= i32::MAX {
                r == Some(v as i32)
            } else {
                r is None
            },
            None => r is None,
        },
{
    parse_i32(&trimmed(&chars_of(text)))
}

/// Whether a hwmon device's `name` file declares `expected`.
pub fn name_matches(name_file: &str, expected: &str) -> (b: bool)
    ensures
        b == (trim(name_file@) == expected@),
{
    let t = trimmed(&chars_of(name_file));
    let e = chars_of(expected);
    chars_eq(&t, &e)
}

/// The hwmon driver names of CPU temperature sensors, tried in this order:
/// Intel's `coretemp`, then AMD's `k10temp` and `zenpower`.
pub open spec fn is_cpu_sensor_name(name: Seq<char>) -> bool {
    name == "coretemp"@ || name == "k10temp"@ || name == "zenpower"@
}

/// Whether a hwmon device's `name` file names a CPU temperature driver.
pub fn is_cpu_sensor(name_file: &str) -> (b: bool)
    ensures
        b == is_cpu_sensor_name(trim(name_file@)),
{
    let t = trimmed(&chars_of(name_file));
    chars_eq(&t, &chars_of("coretemp")) || chars_eq(&t, &chars_of("k10temp")) || chars_eq(
        &t,
        &chars_of("zenpower"),
    )
}

/// Pause between attempts to find the hwmon device, in milliseconds.
pub const DISCOVERY_RETRY_MS: u64 = 500;

/// Whether discovery gives up after a failed attempt: once the time spent
/// reaches the timeout. A device that is genuinely absent still costs the
/// whole timeout.
pub fn discovery_gives_up(elapsed_ms: u64, timeout_ms: u64) -> (b: bool)
    ensures
        b == (elapsed_ms >= timeout_ms),
{
    elapsed_ms >= timeout_ms
}

} // verus!
