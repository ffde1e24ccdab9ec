use vstd::prelude::*;
use crate::error::AutostartError;
use crate::location::config_base_spec;
use crate::manager::{get_result, record_content_spec, set_step, Platform, SystemModel};
use crate::record::{desktop_prefix, desktop_suffix, registry_prefix, registry_suffix};

verus! {

/// Enabling is idempotent: when an enable succeeds, enabling again from the
/// state it produced changes nothing and succeeds as well — no duplicate
/// record, no error.
pub proof fn lemma_enable_idempotent(m: SystemModel, exe: Option<Seq<char>>)
    ensures
        ({
            let (m1, r1) = set_step(m, exe, true);
            let (m2, r2) = set_step(m1, exe, true);
            r1 is Ok ==> m2 == m1 && r2 is Ok
        }),
{
}

/// Disabling when not registered succeeds and leaves the state unregistered:
/// removal is best-effort and the absence of a record is no failure.
/// The executable path must still resolve and, on the file-style platform,
/// the configuration base directory must exist — the two conditions under
/// which any `SetAutostart` call can proceed at all.
pub proof fn lemma_disable_when_not_registered(m: SystemModel, exe: Seq<char>)
    requires
        m.record is None,
        m.platform is DesktopFile ==> m.base is Some,
    ensures
        ({
            let (m1, r1) = set_step(m, Some(exe), false);
            r1 is Ok && m1.record is None && m1 == m
        }),
{
}

/// Round trip, on the platforms that have a registration mechanism: after a
/// successful enable the query reports `true`; after a successful disable
/// whose removal the OS accepted, it reports `false`.
pub proof fn lemma_round_trip(m: SystemModel, exe: Option<Seq<char>>)
    requires
        m.platform is Registry || m.platform is DesktopFile,
    ensures
        ({
            let (m1, r1) = set_step(m, exe, true);
            r1 is Ok ==> get_result(m1) == Ok::<bool, AutostartError>(true)
        }),
        ({
            let (m1, r1) = set_step(m, exe, false);
            r1 is Ok && m.writable ==> get_result(m1) == Ok::<bool, AutostartError>(false)
        }),
{
}

/// Path currency: whatever the registration held before, a successful enable
/// leaves exactly the record built from the executable path resolved at that
/// very call — re-enabling after the binary moved overwrites the stale path.
pub proof fn lemma_path_currency(m: SystemModel, exe1: Option<Seq<char>>, exe2: Seq<char>)
    requires
        m.platform is Registry || m.platform is DesktopFile,
    ensures
        ({
            let (m1, r1) = set_step(m, exe1, true);
            let (m2, r2) = set_step(m1, Some(exe2), true);
            r2 is Ok ==> m2.record == Some(record_content_spec(m.platform, exe2))
        }),
{
}

/// The record a successful enable stores embeds the executable path between
/// fixed platform constants: path currency is visible in the content itself.
pub proof fn lemma_record_embeds_path(platform: Platform, exe: Seq<char>)
    requires
        platform is Registry || platform is DesktopFile,
    ensures
        platform is Registry ==> record_content_spec(platform, exe) == registry_prefix() + exe
            + registry_suffix(),
        platform is DesktopFile ==> record_content_spec(platform, exe) == desktop_prefix() + exe
            + desktop_suffix(),
{
}

/// On a platform with no registration mechanism the query always answers
/// `false`, and `SetAutostart` of either value succeeds without touching any
/// state — provided the executable path resolved, which every `SetAutostart`
/// call demands first.
pub proof fn lemma_unsupported_platform(m: SystemModel, exe: Seq<char>, enabled: bool)
    requires
        m.platform is Unsupported,
    ensures
        get_result(m) == Ok::<bool, AutostartError>(false),
        ({
            let (m1, r1) = set_step(m, Some(exe), enabled);
            r1 is Ok && m1 == m
        }),
{
}

/// On the file-style platform with neither recognized environment variable
/// set, both operations fail with `ConfigDirUnresolvable` and nothing is
/// written to a guessed location.
pub proof fn lemma_missing_config_dir(m: SystemModel, exe: Seq<char>, enabled: bool)
    requires
        m.platform is DesktopFile,
        m.base == config_base_spec(None, None),
    ensures
        ({
            let (m1, r1) = set_step(m, Some(exe), enabled);
            r1 == Err::<(), AutostartError>(AutostartError::ConfigDirUnresolvable) && m1 == m
        }),
        get_result(m) == Err::<bool, AutostartError>(AutostartError::ConfigDirUnresolvable),
{
}

} // verus!
