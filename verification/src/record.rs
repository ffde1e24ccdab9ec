use vstd::prelude::*;
use vstd::string::StringExecFns;

verus! {

/// The flag appended to the stored launch command, so that an application
/// started at login can detect it and begin hidden.
pub open spec fn launch_marker_spec() -> Seq<char> {
    "--autostart"@
}

/// The launch-marker flag as an executable value.
pub fn launch_marker() -> (r: String)
    ensures
        r@ == launch_marker_spec(),
{
    String::from_str("--autostart")
}

/// What a registry-style record holds before the executable path.
pub open spec fn registry_prefix() -> Seq<char> {
    "\""@
}

/// What a registry-style record holds after the executable path.
pub open spec fn registry_suffix() -> Seq<char> {
    "\" "@ + launch_marker_spec()
}

/// A registry-style record: the quoted absolute executable path followed by
/// the launch-marker flag.
pub open spec fn registry_command_spec(exe: Seq<char>) -> Seq<char> {
    registry_prefix() + exe + registry_suffix()
}

/// What a desktop-entry record holds before the executable path.
pub open spec fn desktop_prefix() -> Seq<char> {
    "[Desktop Entry]\nType=Application\nName=Alarm Timer\nExec=\""@
}

/// What a desktop-entry record holds after the executable path.
pub open spec fn desktop_suffix() -> Seq<char> {
    "\" "@ + launch_marker_spec() + "\nTerminal=false\nX-GNOME-Autostart-enabled=true\n"@
}

/// A file-style record: a `.desktop` entry whose `Exec=` line invokes the
/// quoted executable path with the launch-marker flag.
pub open spec fn desktop_entry_spec(exe: Seq<char>) -> Seq<char> {
    desktop_prefix() + exe + desktop_suffix()
}

/// Builds the registry-style record for the given executable path.
pub fn registry_run_value(exe_path: &str) -> (r: String)
    ensures
        r@ == registry_command_spec(exe_path@),
{
    let mut s = String::from_str("\"");
    s.append(exe_path);
    s.append("\" ");
    s.append("--autostart");
    proof {
        assert(s@ =~= registry_command_spec(exe_path@));
    }
    s
}

/// Builds the file-style record for the given executable path.
pub fn desktop_entry(exe_path: &str) -> (r: String)
    ensures
        r@ == desktop_entry_spec(exe_path@),
{
    let mut s = String::from_str("[Desktop Entry]\nType=Application\nName=Alarm Timer\nExec=\"");
    s.append(exe_path);
    s.append("\" ");
    s.append("--autostart");
    s.append("\nTerminal=false\nX-GNOME-Autostart-enabled=true\n");
    proof {
        assert(s@ =~= desktop_entry_spec(exe_path@));
    }
    s
}

/// Whether the launch-marker flag occurs in an argument list.
pub fn launch_marker_present(args: &Vec<String>) -> (r: bool)
    ensures
        r == exists|i: int| 0 <= i < args@.len() && #[trigger] args@[i]@ == launch_marker_spec(),
{
    let marker = launch_marker();
    let mut k: usize = 0;
    while k < args.len()
        invariant
            0 <= k <= args@.len(),
            marker@ == launch_marker_spec(),
            forall|i: int| 0 <= i < k ==> #[trigger] args@[i]@ != launch_marker_spec(),
        decreases args@.len() - k,
    {
        if args[k].eq(&marker) {
            proof {
                assert(args@[k as int]@ == launch_marker_spec());
            }
            return true;
        }
        k += 1;
    }
    false
}

} // verus!
