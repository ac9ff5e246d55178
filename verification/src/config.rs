//! Values that are fixed when the shell is built and that its other parts read
//! by name.

use vstd::prelude::*;

verus! {

/// Name of the file in which the settings store keeps the settings.
pub const SETTINGS_STORE: &'static str = "zeroxzero.settings.dat";

/// Key under which the settings store keeps the address of the default server.
pub const DEFAULT_SERVER_URL_KEY: &'static str = "defaultServerUrl";

/// Upper bound on the number of log entries that are kept.
pub const MAX_LOG_ENTRIES: usize = 200;

/// Whether a character can stand in a file name or a record key as it is: an
/// ASCII letter or digit, a dot, an underscore or a hyphen.
pub open spec fn is_plain_char(c: char) -> bool {
    ||| 'a' <= c <= 'z'
    ||| 'A' <= c <= 'Z'
    ||| '0' <= c <= '9'
    ||| c == '.'
    ||| c == '_'
    ||| c == '-'
}

/// Whether a name can be used as a file name or a record key without escaping:
/// it is not empty and each of its characters is plain.
pub open spec fn is_plain_name(name: Seq<char>) -> bool {
    &&& name.len() > 0
    &&& forall|i: int| 0 <= i < name.len() ==> is_plain_char(#[trigger] name[i])
}

/// The name of the settings store and the key of the default server are plain
/// names.
pub proof fn lemma_names_are_plain()
    ensures
        is_plain_name(SETTINGS_STORE@),
        is_plain_name(DEFAULT_SERVER_URL_KEY@),
{
    reveal_strlit("zeroxzero.settings.dat");
    reveal_strlit("defaultServerUrl");
}

/// The retention limit is 200 entries, so the log keeps at least one.
pub proof fn lemma_log_limit_is_positive()
    ensures
        MAX_LOG_ENTRIES == 200,
        MAX_LOG_ENTRIES > 0,
{
}

/// Whether the shell checks for updates and installs them: only a build that
/// was given the key that signs updates does. `signing_key` is that key as the
/// build saw it, `None` where it was not set.
pub fn updater_enabled(signing_key: Option<&str>) -> (enabled: bool)
    ensures
        enabled <==> signing_key is Some,
{
    signing_key.is_some()
}

} // verus!
