//! Resolution of the bundled resources a start needs: the runtime executable
//! and the server entry point. Resolution turns the shell's resource
//! directory into absolute paths; the existence check turns the shell's
//! filesystem probes into either permission to launch or the exact error,
//! with the attempted path preserved.

use vstd::prelude::*;
use crate::errors::ServerError;

verus! {

/// Relative path of the bundled runtime executable.
pub fn node_resource() -> (r: &'static str)
    ensures
        r@ == "binaries/node/node.exe"@,
{
    "binaries/node/node.exe"
}

/// Relative path of the bundled server entry point.
pub fn server_resource() -> (r: &'static str)
    ensures
        r@ == "binaries/server/dist/index.js"@,
{
    "binaries/server/dist/index.js"
}

/// An absolute path: the resource directory, a separator, the relative path.
pub open spec fn joined(dir: Seq<char>, resource: Seq<char>) -> Seq<char> {
    dir + "/"@ + resource
}

/// The absolute location of a bundled resource, or nothing when the shell
/// could not determine its resource directory.
pub fn get_resource_path(resource_dir: &Option<String>, resource: &str) -> (r: Option<String>)
    ensures
        r is Some <==> resource_dir is Some,
        (resource_dir matches Some(d) ==> r matches Some(p) && p@ == joined(d@, resource@)),
{
    match resource_dir {
        Some(d) => Some(String::from_str(d.as_str()).concat("/").concat(resource)),
        None => None,
    }
}

/// The two absolute paths a single start operation needs, both required to
/// exist on disk before a launch is attempted.
#[derive(Debug, PartialEq, Eq)]
pub struct ResolvedPaths {
    pub exe: String,
    pub entry: String,
}

impl ResolvedPaths {
    /// Both paths resolved under `dir`.
    pub open spec fn resolved_under(&self, dir: Seq<char>) -> bool {
        &&& self.exe@ == joined(dir, "binaries/node/node.exe"@)
        &&& self.entry@ == joined(dir, "binaries/server/dist/index.js"@)
    }
}

/// Resolves the executable and entry-point paths under the resource
/// directory. Fails exactly when the shell had no resource directory, and
/// then with `ResourceDirUnavailable`.
pub fn resolve_paths(resource_dir: &Option<String>) -> (r: Result<ResolvedPaths, ServerError>)
    ensures
        resource_dir is None ==> r == Err::<ResolvedPaths, ServerError>(
            ServerError::ResourceDirUnavailable,
        ),
        (resource_dir matches Some(d) ==> r matches Ok(paths) && paths.resolved_under(d@)),
{
    let exe = match get_resource_path(resource_dir, node_resource()) {
        Some(p) => p,
        None => {
            return Err(ServerError::ResourceDirUnavailable);
        },
    };
    let entry = match get_resource_path(resource_dir, server_resource()) {
        Some(p) => p,
        None => {
            return Err(ServerError::ResourceDirUnavailable);
        },
    };
    Ok(ResolvedPaths { exe, entry })
}

/// Decides whether a launch may proceed, from the shell's existence probes of
/// the two resolved paths. Succeeds exactly when both files exist; otherwise
/// the error names the first missing path (the executable is checked first).
pub fn check_resources(paths: &ResolvedPaths, exe_exists: bool, entry_exists: bool) -> (r: Result<
    (),
    ServerError,
>)
    ensures
        r is Ok <==> exe_exists && entry_exists,
        !exe_exists ==> r == Err::<(), ServerError>(
            (ServerError::MissingResource { path: paths.exe }),
        ),
        exe_exists && !entry_exists ==> r == Err::<(), ServerError>(
            (ServerError::MissingResource { path: paths.entry }),
        ),
{
    if !exe_exists {
        Err(ServerError::MissingResource { path: paths.exe.clone() })
    } else if !entry_exists {
        Err(ServerError::MissingResource { path: paths.entry.clone() })
    } else {
        Ok(())
    }
}

} // verus!
