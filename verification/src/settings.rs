//! GUI-only preferences (tray behaviour, autostart): their defaults, where
//! they live, and the desktop entry that starts the GUI at login.

use crate::paths::{join, join_path};
use crate::text::{chars_of, push_str, string_from_chars};
use vstd::prelude::*;

verus! {

/// Per-user GUI preferences, kept apart from the daemon's configuration.
#[derive(Clone, Copy, Debug, PartialEq, Eq, Structural)]
pub struct GuiSettings {
    /// Show the system tray icon at all.
    pub tray_icon: bool,
    /// Closing the window hides to the tray instead of quitting.
    pub close_to_tray: bool,
    /// Start with the window hidden, tray icon only.
    pub start_minimized: bool,
    /// Keep a desktop entry in the autostart directory.
    pub autostart: bool,
}

impl Default for GuiSettings {
    fn default() -> (s: Self)
        ensures
            s.tray_icon,
            !s.close_to_tray,
            !s.start_minimized,
            !s.autostart,
    {
        GuiSettings { tray_icon: true, close_to_tray: false, start_minimized: false, autostart: false }
    }
}

/// The settings to use given what could be read: a missing, unreadable or
/// malformed file just means defaults.
pub fn settings_or_default(parsed: Option<GuiSettings>) -> (s: GuiSettings)
    ensures
        match parsed {
            Some(p) => s == p,
            None => s.tray_icon && !s.close_to_tray && !s.start_minimized && !s.autostart,
        },
{
    match parsed {
        Some(p) => p,
        None => GuiSettings::default(),
    }
}

/// The user's configuration directory: `$XDG_CONFIG_HOME` if set, else
/// `$HOME/.config`, else `./.config`.
pub fn config_home(xdg_config_home: Option<String>, home: Option<String>) -> (p: String)
    ensures
        p@ == match xdg_config_home {
            Some(x) => x@,
            None => join_path(
                match home {
                    Some(h) => h@,
                    None => "."@,
                },
                ".config"@,
            ),
        },
{
    match xdg_config_home {
        Some(x) => x,
        None => match home {
            Some(h) => join(h.as_str(), ".config"),
            None => join(".", ".config"),
        },
    }
}

/// `<config home>/nzxt-ctl/gui.toml`.
pub fn settings_path(config_home: &str) -> (p: String)
    ensures
        p@ == join_path(join_path(config_home@, "nzxt-ctl"@), "gui.toml"@),
{
    let dir = join(config_home, "nzxt-ctl");
    join(dir.as_str(), "gui.toml")
}

/// `<config home>/autostart/nzxt-ctl-gui.desktop`.
pub fn autostart_path(config_home: &str) -> (p: String)
    ensures
        p@ == join_path(join_path(config_home@, "autostart"@), "nzxt-ctl-gui.desktop"@),
{
    let dir = join(config_home, "autostart");
    join(dir.as_str(), "nzxt-ctl-gui.desktop")
}

/// A character of the executable path as it appears inside the quoted
/// `Exec=` value: backslash, double quote, backtick and dollar escaped with
/// a backslash, as the Desktop Entry spec asks.
pub open spec fn escape_char(c: char) -> Seq<char> {
    if c == '\\' || c == '"' || c == '`' || c == '$' {
        seq!['\\', c]
    } else {
        seq![c]
    }
}

pub open spec fn escape_exec(s: Seq<char>) -> Seq<char>
    decreases s.len(),
{
    if s.len() == 0 {
        Seq::empty()
    } else {
        escape_exec(s.drop_last()) + escape_char(s.last())
    }
}

/// The autostart desktop entry launching the GUI at `exe`.
pub open spec fn desktop_entry_text(exe: Seq<char>) -> Seq<char> {
    "[Desktop Entry]\nType=Application\nName=NZXT Control\nComment=NZXT Kraken pump/fan control\nExec=\""@
        + escape_exec(exe)
        + "\"\nIcon=cpu\nTerminal=false\nX-KDE-StartupNotify=false\n"@
}

/// Writes the autostart entry for the GUI binary at `exe`; the `Exec=`
/// value is quoted and escaped so a path with spaces or shell-special
/// characters still launches.
pub fn desktop_entry(exe: &str) -> (s: String)
    ensures
        s@ == desktop_entry_text(exe@),
{
    let path = chars_of(exe);
    let mut v: Vec<char> = Vec::new();
    push_str(
        &mut v,
        "[Desktop Entry]\nType=Application\nName=NZXT Control\nComment=NZXT Kraken pump/fan control\nExec=\"",
    );
    let ghost start = v@;
    let n = path.len();
    let mut i: usize = 0;
    while i < n
        invariant
            n == path@.len(),
            path@ == exe@,
            i <= n,
            v@ == start + escape_exec(path@.subrange(0, i as int)),
        decreases n - i,
    {
        let c = path[i];
        if c == '\\' || c == '"' || c == '`' || c == '$' {
            v.push('\\');
        }
        v.push(c);
        assert(path@.subrange(0, i + 1).drop_last() == path@.subrange(0, i as int));
        i = i + 1;
    }
    assert(path@.subrange(0, n as int) == path@);
    push_str(&mut v, "\"\nIcon=cpu\nTerminal=false\nX-KDE-StartupNotify=false\n");
    string_from_chars(&v)
}

} // verus!
