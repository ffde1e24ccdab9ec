use vstd::prelude::*;
use crate::error::AutostartError;
use crate::location::{EnvVars, autostart_file_path, opt_string_view};
use crate::record::{desktop_entry, desktop_entry_spec, registry_command_spec, registry_run_value};

verus! {

/// The registration mechanism the running platform offers.
#[derive(Clone, Copy, Debug, PartialEq, Eq, Structural)]
pub enum Platform {
    /// A per-user "run at login" registry value (Windows-style).
    Registry,
    /// A `.desktop` file under the user's configuration directory
    /// (XDG-style).
    DesktopFile,
    /// No registration mechanism: autostart is unsupported and reported as a
    /// fixed disabled state.
    Unsupported,
}

/// What a `SetAutostart` call asks the platform backend to do at the fixed
/// registration location.
#[derive(Debug)]
pub enum Action {
    /// Store this record, overwriting whatever is there (last write wins).
    Store { content: String },
    /// Remove the record, best-effort.
    Remove,
    /// Do nothing: the platform has no registration mechanism.
    Nothing,
}

/// The character sequence held by an optional string slice.
pub open spec fn opt_str_view(o: Option<&str>) -> Option<Seq<char>> {
    match o {
        Some(s) => Some(s@),
        None => None,
    }
}

/// The record a successful enable leaves at the registration location.
pub open spec fn record_content_spec(platform: Platform, exe: Seq<char>) -> Seq<char> {
    match platform {
        Platform::Registry => registry_command_spec(exe),
        _ => desktop_entry_spec(exe),
    }
}

/// Decides what `SetAutostart(enabled)` must do, from the running platform,
/// the environment, and the executable path the OS reported (`None` when it
/// could not report one).
///
/// The executable path is resolved first: without it the call fails, on any
/// platform, before a registration location is looked for.
pub fn plan_set_autostart(
    platform: Platform,
    env: &EnvVars,
    exe_path: Option<&str>,
    enabled: bool,
) -> (r: Result<Action, AutostartError>)
    ensures
        exe_path is None ==> (r matches Err(e) && e == AutostartError::PathResolution),
        exe_path matches Some(exe) ==> match platform {
            Platform::Unsupported => r matches Ok(a) && a is Nothing,
            Platform::Registry => if enabled {
                r matches Ok(a) && a matches Action::Store { content } && content@
                    == registry_command_spec(exe@)
            } else {
                r matches Ok(a) && a is Remove
            },
            Platform::DesktopFile => match env.base_spec() {
                None => r matches Err(e) && e == AutostartError::ConfigDirUnresolvable,
                Some(base) => if enabled {
                    r matches Ok(a) && a matches Action::Store { content } && content@
                        == desktop_entry_spec(exe@)
                } else {
                    r matches Ok(a) && a is Remove
                },
            },
        },
{
    let exe = match exe_path {
        Some(e) => e,
        None => {
            return Err(AutostartError::PathResolution);
        },
    };
    match platform {
        Platform::Unsupported => Ok(Action::Nothing),
        Platform::Registry => {
            if enabled {
                Ok(Action::Store { content: registry_run_value(exe) })
            } else {
                Ok(Action::Remove)
            }
        },
        Platform::DesktopFile => {
            match autostart_file_path(env) {
                Err(e) => Err(e),
                Ok(_path) => {
                    if enabled {
                        Ok(Action::Store { content: desktop_entry(exe) })
                    } else {
                        Ok(Action::Remove)
                    }
                },
            }
        },
    }
}

/// What the registration location currently holds: the record's content, or
/// nothing.  The OS is the sole source of truth; no copy is cached between
/// calls.
pub struct RegistrationStore {
    pub record: Option<String>,
}

impl View for RegistrationStore {
    type V = Option<Seq<char>>;

    open spec fn view(&self) -> Option<Seq<char>> {
        opt_string_view(self.record)
    }
}

/// The mathematical model of one registration system: the platform, the
/// configuration base directory its environment resolves to, whether the OS
/// accepts writes at the registration location, and what that location
/// holds.
pub ghost struct SystemModel {
    pub platform: Platform,
    pub base: Option<Seq<char>>,
    pub writable: bool,
    pub record: Option<Seq<char>>,
}

/// The write or removal half of a `SetAutostart` transition, reached once
/// the registration location has resolved.  A refused write aborts an
/// enable with `WriteFailed` and changes nothing; a refused removal is
/// swallowed, by design, since disabling is best-effort.
pub open spec fn set_step_supported(
    m: SystemModel,
    exe: Seq<char>,
    enabled: bool,
) -> (SystemModel, Result<(), AutostartError>) {
    if enabled {
        if m.writable {
            (SystemModel { record: Some(record_content_spec(m.platform, exe)), ..m }, Ok(()))
        } else {
            (m, Err(AutostartError::WriteFailed))
        }
    } else {
        if m.writable {
            (SystemModel { record: None, ..m }, Ok(()))
        } else {
            (m, Ok(()))
        }
    }
}

/// One `SetAutostart` transition on the model: the state after the call and
/// the result the caller sees.
pub open spec fn set_step(
    m: SystemModel,
    exe: Option<Seq<char>>,
    enabled: bool,
) -> (SystemModel, Result<(), AutostartError>) {
    match exe {
        None => (m, Err(AutostartError::PathResolution)),
        Some(e) => match m.platform {
            Platform::Unsupported => (m, Ok(())),
            Platform::Registry => set_step_supported(m, e, enabled),
            Platform::DesktopFile => if m.base is None {
                (m, Err(AutostartError::ConfigDirUnresolvable))
            } else {
                set_step_supported(m, e, enabled)
            },
        },
    }
}

/// What `GetAutostart` answers on the model: presence of the record, never
/// its content; a fixed `false` where autostart is unsupported.
pub open spec fn get_result(m: SystemModel) -> Result<bool, AutostartError> {
    match m.platform {
        Platform::Unsupported => Ok(false),
        Platform::Registry => Ok(m.record is Some),
        Platform::DesktopFile => if m.base is None {
            Err(AutostartError::ConfigDirUnresolvable)
        } else {
            Ok(m.record is Some)
        },
    }
}

/// An autostart registration system: the running platform, the environment
/// it reads, whether the OS accepts writes at the registration location, and
/// what that location currently holds.
pub struct AutostartSystem {
    pub platform: Platform,
    pub env: EnvVars,
    pub writable: bool,
    pub store: RegistrationStore,
}

impl View for AutostartSystem {
    type V = SystemModel;

    open spec fn view(&self) -> SystemModel {
        SystemModel {
            platform: self.platform,
            base: self.env.base_spec(),
            writable: self.writable,
            record: self.store@,
        }
    }
}

impl AutostartSystem {
    /// `SetAutostart(enabled)`: plans the action for this platform and
    /// applies it to the registration location.  `exe_path` is the absolute
    /// executable path the OS reported at this very call, `None` when it
    /// could not report one.
    pub fn set_autostart(&mut self, exe_path: Option<&str>, enabled: bool) -> (r: Result<
        (),
        AutostartError,
    >)
        ensures
            ({
                let (m, res) = set_step(old(self)@, opt_str_view(exe_path), enabled);
                final(self)@ == m && r == res
            }),
            final(self).platform == old(self).platform,
            final(self).env == old(self).env,
            final(self).writable == old(self).writable,
    {
        let plan = plan_set_autostart(self.platform, &self.env, exe_path, enabled);
        match plan {
            Err(e) => Err(e),
            Ok(Action::Nothing) => Ok(()),
            Ok(Action::Store { content }) => {
                if self.writable {
                    self.store.record = Some(content);
                    Ok(())
                } else {
                    Err(AutostartError::WriteFailed)
                }
            },
            Ok(Action::Remove) => {
                if self.writable {
                    self.store.record = None;
                }
                Ok(())
            },
        }
    }

    /// `GetAutostart()`: whether a record is present at the registration
    /// location.  Its content is never inspected; on platforms without a
    /// mechanism the answer is `false` with no error.
    pub fn get_autostart(&self) -> (r: Result<bool, AutostartError>)
        ensures
            r == get_result(self@),
    {
        match self.platform {
            Platform::Unsupported => Ok(false),
            Platform::Registry => Ok(self.store.record.is_some()),
            Platform::DesktopFile => {
                match autostart_file_path(&self.env) {
                    Err(e) => Err(e),
                    Ok(_path) => Ok(self.store.record.is_some()),
                }
            },
        }
    }
}

} // verus!
