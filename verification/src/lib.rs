//! Verified core of a fan/pump controller for NZXT Kraken AIO coolers:
//! the configuration schema and its validation, curve interpolation, the
//! per-cycle control decisions, the IPC request/response handling, the
//! LCD protocol framing and gauge layout, and the GUI-side helpers.
//!
//! Temperatures are carried as integer millidegrees Celsius throughout,
//! the unit the kernel's hwmon interface reports them in.

pub mod bridge;
pub mod config;
pub mod control;
pub mod gauge;
pub mod hwmon;
pub mod ipc;
pub mod lcd;
pub mod lcd_worker;
pub mod paths;
pub mod settings;
pub mod smoothing;
pub mod text;
