use nzxt_ctl::hwmon::{
    discovery_gives_up, is_cpu_sensor, name_matches, needs_manual_mode, parse_millideg, parse_rpm,
    pwm_raw, pwm_text, HwmonChannel, TempSensor,
};

#[test]
fn channel_paths() {
    let ch = HwmonChannel::new("/sys/class/hwmon/hwmon2", 1);
    assert_eq!(ch.pwm_path(), "/sys/class/hwmon/hwmon2/pwm1");
    assert_eq!(ch.pwm_enable_path(), "/sys/class/hwmon/hwmon2/pwm1_enable");
    assert_eq!(ch.fan_input_path(), "/sys/class/hwmon/hwmon2/fan1_input");
    let ch = HwmonChannel::new("/sys/class/hwmon/hwmon2/", 12);
    assert_eq!(ch.pwm_path(), "/sys/class/hwmon/hwmon2/pwm12");
}

#[test]
fn sensor_path() {
    let s = TempSensor::new("/sys/class/hwmon/hwmon5", 1);
    assert_eq!(s.path, "/sys/class/hwmon/hwmon5/temp1_input");
}

#[test]
fn duty_maps_to_pwm_range_and_is_capped() {
    assert_eq!(pwm_raw(0), 0);
    assert_eq!(pwm_raw(40), 102);
    assert_eq!(pwm_raw(100), 255);
    assert_eq!(pwm_raw(200), 255);
    assert_eq!(pwm_text(50), "127");
}

#[test]
fn manual_mode_check() {
    assert!(!needs_manual_mode("1\n"));
    assert!(needs_manual_mode("0\n"));
    assert!(needs_manual_mode("2"));
    assert!(needs_manual_mode(""));
}

#[test]
fn sysfs_number_parsing() {
    assert_eq!(parse_millideg("29100\n"), Some(29_100));
    assert_eq!(parse_millideg(" -500 "), Some(-500));
    assert_eq!(parse_millideg("+7"), Some(7));
    assert_eq!(parse_millideg("2147483647"), Some(i32::MAX));
    assert_eq!(parse_millideg("-2147483648"), Some(i32::MIN));
    assert_eq!(parse_millideg("2147483648"), None);
    assert_eq!(parse_millideg("29.1"), None);
    assert_eq!(parse_millideg("-"), None);
    assert_eq!(parse_millideg(""), None);
    assert_eq!(parse_rpm("1200\n"), Some(1200));
    assert_eq!(parse_rpm("4294967295"), Some(u32::MAX));
    assert_eq!(parse_rpm("4294967296"), None);
    assert_eq!(parse_rpm("-1"), None);
    assert_eq!(parse_rpm("00042"), Some(42));
}

#[test]
fn device_names() {
    assert!(name_matches("kraken2023elite\n", "kraken2023elite"));
    assert!(!name_matches("kraken2023\n", "kraken2023elite"));
    assert!(is_cpu_sensor("coretemp\n"));
    assert!(is_cpu_sensor("k10temp\n"));
    assert!(is_cpu_sensor("zenpower"));
    assert!(!is_cpu_sensor("amdgpu\n"));
}

#[test]
fn discovery_gives_up_at_the_timeout() {
    assert!(!discovery_gives_up(29_999, 30_000));
    assert!(discovery_gives_up(30_000, 30_000));
}
