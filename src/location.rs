use vstd::prelude::*;
use vstd::string::StringExecFns;

verus! {

/// Segments appended to the per-user application-data root to reach the
/// settings file of the watched game.
pub const SETTINGS_SUFFIX: &'static str = "\\..\\LocalLow\\D-CELL GAMES\\UNBEATABLE [white label]\\SYSTEM\\system-options.json";

/// The settings file's location under the application-data root `appdata`.
pub open spec fn settings_path_spec(appdata: Seq<char>) -> Seq<char> {
    appdata + SETTINGS_SUFFIX@
}

/// Derives the absolute path of the settings file from the application-data
/// root, by appending the fixed segments to it.
pub fn get_path_to_game_settings(appdata: &str) -> (r: String)
    ensures
        r@ == settings_path_spec(appdata@),
{
    let mut r = String::from_str(appdata);
    r.append(SETTINGS_SUFFIX);
    r
}

/// Why the settings path could not be resolved.
#[derive(Clone, Copy, Debug, PartialEq, Eq, Structural)]
pub enum ConfigPathError {
    /// The per-user application-data root is not set.
    MissingAppData,
}

/// Resolves the settings path from the application-data root, if one is
/// set; without it there is no path and the watcher is not started.
pub fn resolve_settings_path(appdata: Option<&str>) -> (r: Result<String, ConfigPathError>)
    ensures
        appdata is None ==> r == Err::<String, ConfigPathError>(ConfigPathError::MissingAppData),
        appdata matches Some(a) ==> (r matches Ok(p) && p@ == settings_path_spec(a@)),
{
    match appdata {
        Some(a) => Ok(get_path_to_game_settings(a)),
        None => Err(ConfigPathError::MissingAppData),
    }
}

} // verus!
