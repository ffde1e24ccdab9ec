use vstd::prelude::*;
use vstd::string::StringExecFns;
use crate::error::AutostartError;

verus! {

/// The environment values that file-style registration reads.  A field is
/// `None` when the corresponding variable is not set.
pub struct EnvVars {
    pub xdg_config_home: Option<String>,
    pub home: Option<String>,
}

/// The character sequence held by an optional string.
pub open spec fn opt_string_view(o: Option<String>) -> Option<Seq<char>> {
    match o {
        Some(s) => Some(s@),
        None => None,
    }
}

/// The configuration base directory: `$XDG_CONFIG_HOME` when set, otherwise
/// `$HOME/.config`, otherwise none.
pub open spec fn config_base_spec(
    xdg: Option<Seq<char>>,
    home: Option<Seq<char>>,
) -> Option<Seq<char>> {
    match xdg {
        Some(x) => Some(x),
        None => match home {
            Some(h) => Some(h + "/.config"@),
            None => None,
        },
    }
}

impl EnvVars {
    /// The configuration base directory these values resolve to, if any.
    pub open spec fn base_spec(&self) -> Option<Seq<char>> {
        config_base_spec(opt_string_view(self.xdg_config_home), opt_string_view(self.home))
    }
}

/// The registration file's path under a given configuration base directory.
/// Its name is a fixed constant tied to the application, never derived from
/// user input.
pub open spec fn autostart_file_spec(base: Seq<char>) -> Seq<char> {
    base + "/autostart/alarm-timer.desktop"@
}

/// Resolves the `.desktop` registration file's path from the environment:
/// `$XDG_CONFIG_HOME/autostart/alarm-timer.desktop`, falling back to
/// `$HOME/.config/autostart/alarm-timer.desktop`.  Fails exactly when
/// neither variable is set; no location is guessed.
pub fn autostart_file_path(env: &EnvVars) -> (r: Result<String, AutostartError>)
    ensures
        env.base_spec() matches Some(base) ==> (r matches Ok(p) && p@ == autostart_file_spec(base)),
        env.base_spec() is None ==> (r matches Err(e) && e == AutostartError::ConfigDirUnresolvable),
{
    let base: String = match &env.xdg_config_home {
        Some(x) => x.clone(),
        None => match &env.home {
            Some(h) => {
                let mut b = h.clone();
                b.append("/.config");
                b
            },
            None => {
                return Err(AutostartError::ConfigDirUnresolvable);
            },
        },
    };
    let mut p = base;
    p.append("/autostart/alarm-timer.desktop");
    proof {
        assert(env.base_spec() matches Some(b) && p@ =~= autostart_file_spec(b));
    }
    Ok(p)
}

/// The per-user "run at login" registry key of the registry-style platform.
pub fn registry_run_key() -> (r: String)
    ensures
        r@ == "HKCU\\Software\\Microsoft\\Windows\\CurrentVersion\\Run"@,
{
    String::from_str("HKCU\\Software\\Microsoft\\Windows\\CurrentVersion\\Run")
}

/// The registry value name identifying this application.
pub fn registry_value_name() -> (r: String)
    ensures
        r@ == "AlarmTimer"@,
{
    String::from_str("AlarmTimer")
}

} // verus!
