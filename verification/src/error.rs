use vstd::prelude::*;
use vstd::string::StringExecFns;

verus! {

/// The failures that autostart registration can surface to a caller.
///
/// Failures while removing a registration are deliberately not represented:
/// disabling is best-effort and never fails the caller.
#[derive(Clone, Copy, Debug, PartialEq, Eq, Structural)]
pub enum AutostartError {
    /// The path of the currently running executable could not be determined.
    PathResolution,
    /// No usable base directory for file-style registration: neither of the
    /// two recognized environment variables is set.
    ConfigDirUnresolvable,
    /// The enabling write was not accepted by the platform.
    WriteFailed,
}

impl AutostartError {
    /// A human-readable description, the form in which callers surface errors.
    pub fn message(&self) -> (r: String)
        ensures
            *self is PathResolution ==> r@ == "Unable to resolve executable path"@,
            *self is ConfigDirUnresolvable ==> r@ == "Unable to resolve config directory"@,
            *self is WriteFailed ==> r@ == "Failed to add to startup"@,
    {
        match self {
            AutostartError::PathResolution => String::from_str("Unable to resolve executable path"),
            AutostartError::ConfigDirUnresolvable => String::from_str(
                "Unable to resolve config directory",
            ),
            AutostartError::WriteFailed => String::from_str("Failed to add to startup"),
        }
    }
}

} // verus!
