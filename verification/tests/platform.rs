use ioscpy::platform::{cache_base, missing_tools_hint, tool_file_name, tool_path, CacheBase, HostOs};
use ioscpy::wayland_compat::{decoration_step, fall_back_to_x11, is_decoration_manager, DecorationStep};

#[test]
fn hints_per_os() {
    assert_eq!(
        missing_tools_hint(HostOs::MacOs),
        "The USB tools are missing. Install them with:  brew install libimobiledevice"
    );
    assert_eq!(
        missing_tools_hint(HostOs::Linux),
        "The USB tools are missing. Install them with:  sudo apt install libimobiledevice-utils usbmuxd"
    );
    assert!(missing_tools_hint(HostOs::Windows).starts_with("Install Apple Mobile Device Support"));
    assert!(missing_tools_hint(HostOs::Windows).ends_with("next to ioscpy.exe."));
}

#[test]
fn unix_tool_path_is_the_bare_name() {
    assert_eq!(tool_path("iproxy"), Some("iproxy".to_string()));
}

#[test]
fn tool_file_name_appends_the_suffix() {
    assert_eq!(tool_file_name("iproxy", ".exe"), "iproxy.exe");
    assert_eq!(tool_file_name("idevice_id", ""), "idevice_id");
}

#[test]
fn decoration_manager_name() {
    assert!(is_decoration_manager("zxdg_decoration_manager_v1"));
    assert!(!is_decoration_manager("zxdg_decoration_manager_v2"));
    assert!(!is_decoration_manager("wl_compositor"));
}

#[test]
fn decoration_decisions() {
    assert_eq!(decoration_step(false, false, false), DecorationStep::LeaveAlone);
    assert_eq!(decoration_step(true, false, true), DecorationStep::LeaveAlone);
    assert_eq!(decoration_step(true, false, false), DecorationStep::Probe);
    assert_eq!(decoration_step(false, true, false), DecorationStep::Probe);
    assert!(fall_back_to_x11(Some(false)));
    assert!(!fall_back_to_x11(Some(true)));
    assert!(!fall_back_to_x11(None));
}

#[test]
fn cache_base_per_os() {
    assert_eq!(cache_base(HostOs::Windows, true, true, true), Some(CacheBase::LocalAppData));
    assert_eq!(cache_base(HostOs::Windows, false, true, true), None);
    assert_eq!(cache_base(HostOs::MacOs, false, true, true), Some(CacheBase::HomeLibraryCaches));
    assert_eq!(cache_base(HostOs::MacOs, true, true, false), None);
    assert_eq!(cache_base(HostOs::Linux, false, true, true), Some(CacheBase::XdgCacheHome));
    assert_eq!(cache_base(HostOs::Linux, false, false, true), Some(CacheBase::HomeDotCache));
    assert_eq!(cache_base(HostOs::Linux, true, false, false), None);
}
