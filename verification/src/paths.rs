//! Resolution of the backend entry script's location.
//!
//! The entry script lives at a fixed relative subpath, `backend/` followed
//! by the script's file name. In a development build it is found relative
//! to the parent of the current working directory; in a production build it
//! is found under the application's bundled-resource directory. The branch
//! is keyed on an explicit [`BuildMode`] value rather than a compile-time
//! flag, so both arms are checked and testable.

use vstd::prelude::*;

verus! {

/// Which build of the application is running. The mode decides where the
/// backend entry script is looked for.
#[derive(Clone, Copy, Debug, PartialEq, Eq, Structural)]
pub enum BuildMode {
    /// A development build, run from the source tree.
    Development,
    /// A packaged build, run from an installed bundle.
    Production,
}

/// The directories a launch attempt resolves paths against. Both are
/// supplied by the caller; the library never queries the platform itself.
pub struct LaunchEnvironment {
    /// The process's current working directory.
    pub current_dir: String,
    /// The directory holding the application's bundled, read-only assets.
    pub resource_dir: String,
}

/// The path the backend entry script is expected at: in development,
/// `<current_dir>/../backend/<entry>`; in production,
/// `<resource_dir>/backend/<entry>`.
pub open spec fn spec_backend_path(
    mode: BuildMode,
    current_dir: Seq<char>,
    resource_dir: Seq<char>,
    entry: Seq<char>,
) -> Seq<char> {
    match mode {
        BuildMode::Development => current_dir + "/../backend/"@ + entry,
        BuildMode::Production => resource_dir + "/backend/"@ + entry,
    }
}

/// Resolves the expected location of the backend entry script `entry`
/// under `env` for the given build mode.
pub fn resolve_backend_path(mode: BuildMode, env: &LaunchEnvironment, entry: &str) -> (r: String)
    ensures
        r@ == spec_backend_path(mode, env.current_dir@, env.resource_dir@, entry@),
{
    match mode {
        BuildMode::Development => {
            let mut r = env.current_dir.clone();
            r.append("/../backend/");
            r.append(entry);
            r
        },
        BuildMode::Production => {
            let mut r = env.resource_dir.clone();
            r.append("/backend/");
            r.append(entry);
            r
        },
    }
}

/// The file name of the backend's entry script.
pub fn entry_script_name() -> (r: &'static str)
    ensures
        r@ == "flask_api.py"@,
{
    "flask_api.py"
}

/// The interpreter the backend entry script is handed to.
pub fn interpreter_name() -> (r: &'static str)
    ensures
        r@ == "python3"@,
{
    "python3"
}

} // verus!
