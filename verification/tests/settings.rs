use nzxt_ctl::settings::{autostart_path, config_home, desktop_entry, settings_or_default, settings_path, GuiSettings};

#[test]
fn defaults_show_the_tray_icon_only() {
    let d = GuiSettings::default();
    assert!(d.tray_icon);
    assert!(!d.close_to_tray && !d.start_minimized && !d.autostart);
    assert_eq!(settings_or_default(None), d);
    let custom = GuiSettings { tray_icon: false, close_to_tray: true, start_minimized: true, autostart: true };
    assert_eq!(settings_or_default(Some(custom)), custom);
}

#[test]
fn settings_locations() {
    assert_eq!(config_home(Some("/x/cfg".into()), Some("/home/u".into())), "/x/cfg");
    assert_eq!(config_home(None, Some("/home/u".into())), "/home/u/.config");
    assert_eq!(config_home(None, None), "./.config");
    assert_eq!(settings_path("/home/u/.config"), "/home/u/.config/nzxt-ctl/gui.toml");
    assert_eq!(autostart_path("/home/u/.config"), "/home/u/.config/autostart/nzxt-ctl-gui.desktop");
}

#[test]
fn desktop_entry_quotes_and_escapes_exec() {
    let text = desktop_entry("/opt/my apps/nzxt\"ctl$`\\gui");
    assert!(text.starts_with("[Desktop Entry]"));
    assert!(text.contains("Exec=\"/opt/my apps/nzxt\\\"ctl\\$\\`\\\\gui\"\n"));
    assert_eq!(
        desktop_entry("/usr/bin/nzxt-ctl-gui"),
        "[Desktop Entry]\nType=Application\nName=NZXT Control\nComment=NZXT Kraken pump/fan control\nExec=\"/usr/bin/nzxt-ctl-gui\"\nIcon=cpu\nTerminal=false\nX-KDE-StartupNotify=false\n"
    );
}
