use autostart::error::AutostartError;
use autostart::location::{autostart_file_path, registry_run_key, registry_value_name, EnvVars};
use autostart::manager::{plan_set_autostart, Action, AutostartSystem, Platform, RegistrationStore};
use autostart::record::{desktop_entry, launch_marker, launch_marker_present, registry_run_value};

fn env(xdg: Option<&str>, home: Option<&str>) -> EnvVars {
    EnvVars {
        xdg_config_home: xdg.map(String::from),
        home: home.map(String::from),
    }
}

fn system(platform: Platform, env_vars: EnvVars, writable: bool, record: Option<&str>) -> AutostartSystem {
    AutostartSystem {
        platform,
        env: env_vars,
        writable,
        store: RegistrationStore {
            record: record.map(String::from),
        },
    }
}

#[test]
fn desktop_entry_exact() {
    assert_eq!(
        desktop_entry("/usr/bin/alarm-timer"),
        "[Desktop Entry]\nType=Application\nName=Alarm Timer\nExec=\"/usr/bin/alarm-timer\" --autostart\nTerminal=false\nX-GNOME-Autostart-enabled=true\n"
    );
}

#[test]
fn registry_value_exact() {
    assert_eq!(
        registry_run_value("C:\\Apps\\alarm-timer.exe"),
        "\"C:\\Apps\\alarm-timer.exe\" --autostart"
    );
}

#[test]
fn registry_constants_exact() {
    assert_eq!(
        registry_run_key(),
        "HKCU\\Software\\Microsoft\\Windows\\CurrentVersion\\Run"
    );
    assert_eq!(registry_value_name(), "AlarmTimer");
    assert_eq!(launch_marker(), "--autostart");
}

#[test]
fn file_path_from_xdg_config_home() {
    let r = autostart_file_path(&env(Some("/home/u/.config"), None));
    assert_eq!(r, Ok(String::from("/home/u/.config/autostart/alarm-timer.desktop")));
}

#[test]
fn file_path_falls_back_to_home() {
    let r = autostart_file_path(&env(None, Some("/home/u")));
    assert_eq!(r, Ok(String::from("/home/u/.config/autostart/alarm-timer.desktop")));
}

#[test]
fn file_path_prefers_xdg_over_home() {
    let r = autostart_file_path(&env(Some("/custom"), Some("/home/u")));
    assert_eq!(r, Ok(String::from("/custom/autostart/alarm-timer.desktop")));
}

#[test]
fn file_path_fails_without_base() {
    let r = autostart_file_path(&env(None, None));
    assert_eq!(r, Err(AutostartError::ConfigDirUnresolvable));
}

#[test]
fn scenario_file_style_round_trip() {
    let mut sys = system(Platform::DesktopFile, env(Some("/home/u/.config"), None), true, None);
    assert_eq!(
        autostart_file_path(&sys.env),
        Ok(String::from("/home/u/.config/autostart/alarm-timer.desktop"))
    );

    assert_eq!(sys.set_autostart(Some("/opt/alarm-timer/alarm-timer"), true), Ok(()));
    let stored = sys.store.record.clone().expect("record must exist after enable");
    assert!(stored.contains("Exec=\"/opt/alarm-timer/alarm-timer\" --autostart"));
    assert_eq!(sys.get_autostart(), Ok(true));

    assert_eq!(sys.set_autostart(Some("/opt/alarm-timer/alarm-timer"), false), Ok(()));
    assert_eq!(sys.store.record, None);
    assert_eq!(sys.get_autostart(), Ok(false));
}

#[test]
fn registry_round_trip() {
    let mut sys = system(Platform::Registry, env(None, None), true, None);
    assert_eq!(sys.set_autostart(Some("C:\\Apps\\alarm-timer.exe"), true), Ok(()));
    assert_eq!(
        sys.store.record.as_deref(),
        Some("\"C:\\Apps\\alarm-timer.exe\" --autostart")
    );
    assert_eq!(sys.get_autostart(), Ok(true));
    assert_eq!(sys.set_autostart(Some("C:\\Apps\\alarm-timer.exe"), false), Ok(()));
    assert_eq!(sys.get_autostart(), Ok(false));
}

#[test]
fn enable_twice_is_idempotent() {
    let mut sys = system(Platform::Registry, env(None, None), true, None);
    assert_eq!(sys.set_autostart(Some("C:\\a.exe"), true), Ok(()));
    let first = sys.store.record.clone();
    assert_eq!(sys.set_autostart(Some("C:\\a.exe"), true), Ok(()));
    assert_eq!(sys.store.record, first);
    assert_eq!(sys.get_autostart(), Ok(true));
}

#[test]
fn disable_when_not_registered_succeeds() {
    let mut sys = system(Platform::DesktopFile, env(Some("/home/u/.config"), None), true, None);
    assert_eq!(sys.set_autostart(Some("/bin/app"), false), Ok(()));
    assert_eq!(sys.store.record, None);
    assert_eq!(sys.get_autostart(), Ok(false));
}

#[test]
fn reenable_stores_current_path() {
    let mut sys = system(Platform::DesktopFile, env(Some("/home/u/.config"), None), true, None);
    assert_eq!(sys.set_autostart(Some("/old/place/app"), true), Ok(()));
    assert_eq!(sys.set_autostart(Some("/new/place/app"), true), Ok(()));
    let stored = sys.store.record.clone().unwrap();
    assert!(stored.contains("Exec=\"/new/place/app\" --autostart"));
    assert!(!stored.contains("/old/place/app"));
}

#[test]
fn unsupported_platform_reports_disabled() {
    let mut sys = system(Platform::Unsupported, env(None, None), true, Some("stale"));
    assert_eq!(sys.get_autostart(), Ok(false));
    assert_eq!(sys.set_autostart(Some("/bin/app"), true), Ok(()));
    assert_eq!(sys.store.record.as_deref(), Some("stale"));
    assert_eq!(sys.set_autostart(Some("/bin/app"), false), Ok(()));
    assert_eq!(sys.store.record.as_deref(), Some("stale"));
    assert_eq!(sys.get_autostart(), Ok(false));
}

#[test]
fn missing_config_dir_fails_both_operations() {
    let mut sys = system(Platform::DesktopFile, env(None, None), true, None);
    assert_eq!(
        sys.set_autostart(Some("/bin/app"), true),
        Err(AutostartError::ConfigDirUnresolvable)
    );
    assert_eq!(
        sys.set_autostart(Some("/bin/app"), false),
        Err(AutostartError::ConfigDirUnresolvable)
    );
    assert_eq!(sys.get_autostart(), Err(AutostartError::ConfigDirUnresolvable));
    assert_eq!(sys.store.record, None);
}

#[test]
fn unresolved_exe_path_fails_set() {
    let mut sys = system(Platform::Registry, env(None, None), true, None);
    assert_eq!(sys.set_autostart(None, true), Err(AutostartError::PathResolution));
    assert_eq!(sys.set_autostart(None, false), Err(AutostartError::PathResolution));
    assert_eq!(sys.store.record, None);
}

#[test]
fn refused_write_fails_enable_and_changes_nothing() {
    let mut sys = system(Platform::Registry, env(None, None), false, None);
    assert_eq!(sys.set_autostart(Some("C:\\a.exe"), true), Err(AutostartError::WriteFailed));
    assert_eq!(sys.store.record, None);
    assert_eq!(sys.get_autostart(), Ok(false));
}

#[test]
fn refused_removal_is_swallowed() {
    let mut sys = system(
        Platform::DesktopFile,
        env(Some("/home/u/.config"), None),
        false,
        Some("old record"),
    );
    assert_eq!(sys.set_autostart(Some("/bin/app"), false), Ok(()));
    assert_eq!(sys.store.record.as_deref(), Some("old record"));
}

#[test]
fn plan_shapes_per_platform() {
    let e = env(Some("/home/u/.config"), None);
    match plan_set_autostart(Platform::Registry, &e, Some("C:\\a.exe"), true) {
        Ok(Action::Store { content }) => assert_eq!(content, "\"C:\\a.exe\" --autostart"),
        other => panic!("unexpected plan: {:?}", other),
    }
    match plan_set_autostart(Platform::DesktopFile, &e, Some("/bin/app"), false) {
        Ok(Action::Remove) => {}
        other => panic!("unexpected plan: {:?}", other),
    }
    match plan_set_autostart(Platform::Unsupported, &e, Some("/bin/app"), true) {
        Ok(Action::Nothing) => {}
        other => panic!("unexpected plan: {:?}", other),
    }
    match plan_set_autostart(Platform::DesktopFile, &env(None, None), Some("/bin/app"), true) {
        Err(AutostartError::ConfigDirUnresolvable) => {}
        other => panic!("unexpected plan: {:?}", other),
    }
    match plan_set_autostart(Platform::Registry, &e, None, true) {
        Err(AutostartError::PathResolution) => {}
        other => panic!("unexpected plan: {:?}", other),
    }
}

#[test]
fn launch_marker_detection() {
    let with_marker = vec![String::from("/bin/app"), String::from("--autostart")];
    assert!(launch_marker_present(&with_marker));
    let without = vec![String::from("/bin/app"), String::from("--verbose")];
    assert!(!launch_marker_present(&without));
    let empty: Vec<String> = vec![];
    assert!(!launch_marker_present(&empty));
}

#[test]
fn error_messages() {
    assert_eq!(
        AutostartError::PathResolution.message(),
        "Unable to resolve executable path"
    );
    assert_eq!(
        AutostartError::ConfigDirUnresolvable.message(),
        "Unable to resolve config directory"
    );
    assert_eq!(AutostartError::WriteFailed.message(), "Failed to add to startup");
}
