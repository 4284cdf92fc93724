//! The platform seam: what differs between macOS, Linux and Windows in how
//! the USB tools are found and named.

use vstd::prelude::*;

verus! {

/// The operating system the host runs on.
#[derive(Debug, Clone, Copy, PartialEq, Eq, Structural)]
pub enum HostOs {
    MacOs,
    Linux,
    Windows,
}

/// One actionable line on how to install the USB tools on `os`.
pub open spec fn missing_tools_hint_of(os: HostOs) -> Seq<char> {
    match os {
        HostOs::MacOs =>
            "The USB tools are missing. Install them with:  brew install libimobiledevice"@,
        HostOs::Linux =>
            "The USB tools are missing. Install them with:  sudo apt install libimobiledevice-utils usbmuxd"@,
        HostOs::Windows =>
            "Install Apple Mobile Device Support (from iTunes) and libimobiledevice-win32, then put iproxy.exe, idevice_id.exe, and ideviceinfo.exe on your PATH or next to ioscpy.exe."@,
    }
}

/// One actionable line on how to install the USB tools on `os`.
pub fn missing_tools_hint(os: HostOs) -> (r: &'static str)
    ensures
        r@ == missing_tools_hint_of(os),
{
    match os {
        HostOs::MacOs => "The USB tools are missing. Install them with:  brew install libimobiledevice",
        HostOs::Linux =>
            "The USB tools are missing. Install them with:  sudo apt install libimobiledevice-utils usbmuxd",
        HostOs::Windows =>
            "Install Apple Mobile Device Support (from iTunes) and libimobiledevice-win32, then put iproxy.exe, idevice_id.exe, and ideviceinfo.exe on your PATH or next to ioscpy.exe.",
    }
}

/// How a libimobiledevice CLI is run on macOS and Linux: by its bare name,
/// which the process spawner resolves through PATH. Always `Some`, so a missing
/// tool shows up when it is run.
pub fn tool_path(name: &str) -> (r: Option<String>)
    ensures
        r matches Some(p) && p@ == name@,
{
    let mut p = String::new();
    p.append(name);
    Some(p)
}

/// The file name of a tool: its name followed by the platform's executable
/// suffix (".exe" on Windows, "" elsewhere).
pub fn tool_file_name(name: &str, exe_suffix: &str) -> (r: String)
    ensures
        r@ == name@ + exe_suffix@,
{
    let mut f = String::new();
    f.append(name);
    f.append(exe_suffix);
    f
}


/// Where the per-user cache directory (which then gets an "ioscpy" entry) lives.
#[derive(Debug, Clone, Copy, PartialEq, Eq, Structural)]
pub enum CacheBase {
    /// Windows: `%LOCALAPPDATA%`.
    LocalAppData,
    /// macOS: `$HOME/Library/Caches`.
    HomeLibraryCaches,
    /// Linux: `$XDG_CACHE_HOME`.
    XdgCacheHome,
    /// Linux without `XDG_CACHE_HOME`: `$HOME/.cache`.
    HomeDotCache,
}

/// Picks the cache base on `os` from which environment variables are present;
/// `None` when the one it needs is missing.
pub fn cache_base(os: HostOs, local_app_data: bool, xdg_cache_home: bool, home: bool) -> (r: Option<CacheBase>)
    ensures
        r == match os {
            HostOs::Windows => if local_app_data {
                Some(CacheBase::LocalAppData)
            } else {
                None
            },
            HostOs::MacOs => if home {
                Some(CacheBase::HomeLibraryCaches)
            } else {
                None
            },
            HostOs::Linux => if xdg_cache_home {
                Some(CacheBase::XdgCacheHome)
            } else if home {
                Some(CacheBase::HomeDotCache)
            } else {
                None
            },
        },
{
    match os {
        HostOs::Windows => if local_app_data {
            Some(CacheBase::LocalAppData)
        } else {
            None
        },
        HostOs::MacOs => if home {
            Some(CacheBase::HomeLibraryCaches)
        } else {
            None
        },
        HostOs::Linux => if xdg_cache_home {
            Some(CacheBase::XdgCacheHome)
        } else if home {
            Some(CacheBase::HomeDotCache)
        } else {
            None
        },
    }
}
} // verus!
