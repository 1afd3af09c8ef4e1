//! Where the agent keeps its files: one data folder in the user's local data
//! directory (`FlowSight`), with the database, the logs, the debug screenshots and
//! the downloaded model runtime under it. The folder itself is found and created by
//! the caller; this module composes the paths and the error texts.

use vstd::prelude::*;
use crate::platform::Platform;
use crate::text::{chars_of, path_debug_repr, path_debug_text, is_err_with, push_text};

verus! {

/// Whether `c` separates path components on the platform (`/`, and `\` on Windows).
pub open spec fn is_separator(c: char, windows: bool) -> bool {
    c == '/' || (windows && c == '\\')
}

/// A bare Windows drive such as `C:`, after which `PathBuf::push` adds no separator.
pub open spec fn bare_drive(base: Seq<char>) -> bool {
    base.len() == 2 && base[1] == ':' && (('a' <= base[0] && base[0] <= 'z') || ('A' <= base[0]
        && base[0] <= 'Z'))
}

/// `base` with the file name `name` appended as `PathBuf::join` does: a separator
/// (`\` on Windows, else `/`) goes between them unless `base` is empty, already ends
/// with a separator, or (on Windows) is a bare drive.
pub open spec fn joined(base: Seq<char>, name: Seq<char>, windows: bool) -> Seq<char> {
    if base.len() == 0 || is_separator(base.last(), windows) || (windows && bare_drive(base)) {
        base + name
    } else {
        base + seq![if windows {
            '\\'
        } else {
            '/'
        }] + name
    }
}

/// Appends the file name `name` to the path `base` (see `joined`); for a name that is
/// one plain component, and a base without a verbatim (`\\?\`) prefix, this is what
/// `Path::join` gives.
pub fn join_path(base: &str, name: &str, platform: Platform) -> (r: String)
    ensures
        r@ == joined(base@, name@, platform == Platform::Windows),
{
    let windows = platform == Platform::Windows;
    let b = chars_of(base);
    let n = b.len();
    let mut r = String::new();
    push_text(&mut r, base);
    let need_sep = if n == 0 {
        false
    } else {
        let last = b[n - 1];
        if last == '/' || (windows && last == '\\') {
            false
        } else if windows && n == 2 && b[1] == ':' && (('a' <= b[0] && b[0] <= 'z') || ('A' <= b[0]
            && b[0] <= 'Z')) {
            false
        } else {
            true
        }
    };
    if need_sep {
        if windows {
            crate::text::push_char(&mut r, '\\');
        } else {
            crate::text::push_char(&mut r, '/');
        }
    }
    push_text(&mut r, name);
    r
}

/// The agent's folder under the local data directory.
pub open spec fn app_dir_name() -> Seq<char> {
    "FlowSight"@
}

/// The error when the system has no local data directory.
pub open spec fn no_data_dir_text() -> Seq<char> {
    "No local data dir available"@
}

/// The agent's data folder: `FlowSight` under the user's local data directory
/// (`dirs::data_local_dir`), which must exist. The caller creates the folder.
pub fn app_data_dir(local_data_dir: Option<&str>, platform: Platform) -> (r: Result<String, String>)
    ensures
        match local_data_dir {
            Some(base) => r matches Ok(d) && d@ == joined(base@, app_dir_name(), platform == Platform::Windows),
            None => is_err_with(r, no_data_dir_text()),
        },
{
    match local_data_dir {
        Some(base) => {
            Ok(join_path(base, "FlowSight", platform))
        },
        None => Err("No local data dir available".to_string()),
    }
}

/// The error when a folder cannot be created: the folder (as `Path`'s `Debug` writes it) and
/// the system's message.
pub fn create_dir_error(dir: &str, error: &str) -> (r: String)
    ensures
        r@ == "Failed to create "@ + path_debug_repr(dir@) + ": "@ + error@,
{
    let mut r = String::new();
    push_text(&mut r, "Failed to create ");
    let d = path_debug_text(dir);
    push_text(&mut r, d.as_str());
    push_text(&mut r, ": ");
    push_text(&mut r, error);
    r
}

/// The path of `file` in the data folder, or the data folder's error.
pub open spec fn in_data_dir(data_dir: Result<String, String>, file: Seq<char>, windows: bool) -> Result<Seq<char>, Seq<char>> {
    match data_dir {
        Ok(d) => Ok(joined(d@, file, windows)),
        Err(e) => Err(e@),
    }
}

/// The view of a path result.
pub open spec fn path_result(r: Result<String, String>) -> Result<Seq<char>, Seq<char>> {
    match r {
        Ok(p) => Ok(p@),
        Err(e) => Err(e@),
    }
}

fn file_in_data_dir(data_dir: Result<String, String>, file: &str, platform: Platform) -> (r: Result<String, String>)
    ensures
        path_result(r) == in_data_dir(data_dir, file@, platform == Platform::Windows),
{
    match data_dir {
        Ok(d) => Ok(join_path(d.as_str(), file, platform)),
        Err(e) => Err(e),
    }
}

/// The database file `dev-agent.db` in the data folder.
pub fn db_path(data_dir: Result<String, String>, platform: Platform) -> (r: Result<String, String>)
    ensures
        path_result(r) == in_data_dir(data_dir, "dev-agent.db"@, platform == Platform::Windows),
{
    file_in_data_dir(data_dir, "dev-agent.db", platform)
}

/// The database path, or `dev-agent.db` in the working directory when the data folder
/// is unavailable (for places that cannot report an error).
pub fn db_path_or_fallback(data_dir: Result<String, String>, platform: Platform) -> (r: String)
    ensures
        r@ == match data_dir {
            Ok(d) => joined(d@, "dev-agent.db"@, platform == Platform::Windows),
            Err(_) => "dev-agent.db"@,
        },
{
    match db_path(data_dir, platform) {
        Ok(p) => p,
        Err(_) => "dev-agent.db".to_string(),
    }
}

/// The local server's log `server.log` in the data folder.
pub fn server_log_path(data_dir: Result<String, String>, platform: Platform) -> (r: Result<String, String>)
    ensures
        path_result(r) == in_data_dir(data_dir, "server.log"@, platform == Platform::Windows),
{
    file_in_data_dir(data_dir, "server.log", platform)
}

/// The sign-in log `auth.log` in the data folder.
pub fn auth_log_path(data_dir: Result<String, String>, platform: Platform) -> (r: Result<String, String>)
    ensures
        path_result(r) == in_data_dir(data_dir, "auth.log"@, platform == Platform::Windows),
{
    file_in_data_dir(data_dir, "auth.log", platform)
}

/// The agent's error log `agent_error.log` in the data folder.
pub fn agent_error_log_path(data_dir: Result<String, String>, platform: Platform) -> (r: Result<String, String>)
    ensures
        path_result(r) == in_data_dir(data_dir, "agent_error.log"@, platform == Platform::Windows),
{
    file_in_data_dir(data_dir, "agent_error.log", platform)
}

/// The crash log `crash.log` in the data folder, or in the working directory when the
/// data folder is unavailable.
pub fn crash_log_path_or_fallback(data_dir: Result<String, String>, platform: Platform) -> (r: String)
    ensures
        r@ == match data_dir {
            Ok(d) => joined(d@, "crash.log"@, platform == Platform::Windows),
            Err(_) => "crash.log"@,
        },
{
    match file_in_data_dir(data_dir, "crash.log", platform) {
        Ok(p) => p,
        Err(_) => "crash.log".to_string(),
    }
}

/// The folder `screenshots_tmp` in the data folder, for debug screenshots (the caller
/// creates it).
pub fn screenshots_tmp_dir(data_dir: Result<String, String>, platform: Platform) -> (r: Result<String, String>)
    ensures
        path_result(r) == in_data_dir(data_dir, "screenshots_tmp"@, platform == Platform::Windows),
{
    file_in_data_dir(data_dir, "screenshots_tmp", platform)
}

/// The writable folder `local_llm` in the data folder, where a downloaded runtime goes
/// (the caller creates it).
pub fn local_llm_storage_dir(data_dir: Result<String, String>, platform: Platform) -> (r: Result<String, String>)
    ensures
        path_result(r) == in_data_dir(data_dir, "local_llm"@, platform == Platform::Windows),
{
    file_in_data_dir(data_dir, "local_llm", platform)
}

/// The probe file written to check that the data folder is writable.
pub fn write_probe_path(dir: &str, platform: Platform) -> (r: String)
    ensures
        r@ == joined(dir@, ".flowsight_fs_write_probe"@, platform == Platform::Windows),
{
    join_path(dir, ".flowsight_fs_write_probe", platform)
}

/// The error when the probe file cannot be written: the folder, the system's message,
/// and the likely cause on Windows.
pub fn write_probe_error(dir: &str, error: &str) -> (r: String)
    ensures
        r@ == "Cannot write application data under "@ + dir@ + " ("@ + error@
            + "). On Windows 11 this may be Controlled Folder Access or Defender blocking an unsigned app\u{2014}allow FlowSight or add an exclusion for this folder."@,
{
    let mut r = String::new();
    push_text(&mut r, "Cannot write application data under ");
    push_text(&mut r, dir);
    push_text(&mut r, " (");
    push_text(&mut r, error);
    push_text(
        &mut r,
        "). On Windows 11 this may be Controlled Folder Access or Defender blocking an unsigned app\u{2014}allow FlowSight or add an exclusion for this folder.",
    );
    r
}

/// Whether a file of the debug screenshot folder is removed: its name starts with
/// `capture_` and its age (known when the file's modification time could be read and
/// lies in the past) exceeds the maximum, both in nanoseconds.
pub fn should_prune_screenshot(name: &str, age_nanos: Option<u128>, max_age_nanos: u128) -> (r: bool)
    ensures
        r == (crate::text::starts_with(name@, "capture_"@) && match age_nanos {
            Some(a) => a > max_age_nanos,
            None => false,
        }),
{
    if !crate::text::has_prefix(name, "capture_") {
        return false;
    }
    match age_nanos {
        Some(a) => a > max_age_nanos,
        None => false,
    }
}

/// The error when the debug screenshot folder cannot be listed.
pub fn read_screenshots_error(error: &str) -> (r: String)
    ensures
        r@ == "Failed to read screenshots_tmp: "@ + error@,
{
    let mut r = String::new();
    push_text(&mut r, "Failed to read screenshots_tmp: ");
    push_text(&mut r, error);
    r
}

/// The paths shown to the user: the data folder and its three logs.
pub struct UserPaths {
    pub app_data_dir: String,
    pub server_log: String,
    pub auth_log: String,
    pub agent_error_log: String,
}

/// The data folder and the paths of its server, sign-in and error logs, or the data
/// folder's error.
pub fn get_flowsight_user_paths(data_dir: Result<String, String>, platform: Platform) -> (r: Result<UserPaths, String>)
    ensures
        match data_dir {
            Ok(d) => r matches Ok(u) && u.app_data_dir@ == d@ && u.server_log@ == joined(
                d@,
                "server.log"@,
                platform == Platform::Windows,
            ) && u.auth_log@ == joined(d@, "auth.log"@, platform == Platform::Windows)
                && u.agent_error_log@ == joined(d@, "agent_error.log"@, platform == Platform::Windows),
            Err(e) => r matches Err(x) && x@ == e@,
        },
{
    match data_dir {
        Ok(d) => {
            let server_log = join_path(d.as_str(), "server.log", platform);
            let auth_log = join_path(d.as_str(), "auth.log", platform);
            let agent_error_log = join_path(d.as_str(), "agent_error.log", platform);
            Ok(UserPaths { app_data_dir: d, server_log, auth_log, agent_error_log })
        },
        Err(e) => Err(e),
    }
}

/// The bundled `local_llm` folder under the installer's resource folder, or the error
/// when the resource folder is unknown.
pub fn bundled_local_llm_dir(resource_dir: Result<String, String>, platform: Platform) -> (r: Result<String, String>)
    ensures
        match resource_dir {
            Ok(d) => r matches Ok(p) && p@ == joined(d@, "local_llm"@, platform == Platform::Windows),
            Err(e) => is_err_with(r, "resource_dir unavailable: "@ + e@),
        },
{
    match resource_dir {
        Ok(d) => Ok(join_path(d.as_str(), "local_llm", platform)),
        Err(e) => {
            let mut m = String::new();
            push_text(&mut m, "resource_dir unavailable: ");
            push_text(&mut m, e.as_str());
            Err(m)
        },
    }
}

/// The error when neither the bundled folder nor a development checkout holds the
/// vision model files `gguf` and `mmproj`.
pub fn missing_weights_error(bundled: &str, gguf: &str, mmproj: &str) -> (r: String)
    ensures
        r@ == "local_llm vision weights not found (looked in bundled resources at "@ + path_debug_repr(
            bundled@,
        ) + " and dev tree). Run scripts/fetch-models or place "@ + gguf@ + " and "@ + mmproj@
            + " under local_llm/."@,
{
    let mut r = String::new();
    push_text(&mut r, "local_llm vision weights not found (looked in bundled resources at ");
    let d = path_debug_text(bundled);
    push_text(&mut r, d.as_str());
    push_text(&mut r, " and dev tree). Run scripts/fetch-models or place ");
    push_text(&mut r, gguf);
    push_text(&mut r, " and ");
    push_text(&mut r, mmproj);
    push_text(&mut r, " under local_llm/.");
    r
}


/// The error text when neither the bundled folder nor a development checkout holds the
/// vision model files.
pub open spec fn missing_weights_text(bundled: Seq<char>, gguf: Seq<char>, mmproj: Seq<char>) -> Seq<char> {
    "local_llm vision weights not found (looked in bundled resources at "@ + path_debug_repr(
        bundled,
    ) + " and dev tree). Run scripts/fetch-models or place "@ + gguf + " and "@ + mmproj
        + " under local_llm/."@
}

/// The folder with the vision model files: the bundled folder when it holds them
/// (`bundled_has_weights`), else the development checkout's (`dev`) when one was
/// found, else the error naming the bundled folder and the files.
pub fn choose_local_llm_dir(
    bundled: String,
    bundled_has_weights: bool,
    dev: Option<String>,
    gguf: &str,
    mmproj: &str,
) -> (r: Result<String, String>)
    ensures
        bundled_has_weights ==> r == Ok::<String, String>(bundled),
        !bundled_has_weights ==> match dev {
            Some(d) => r == Ok::<String, String>(d),
            None => is_err_with(r, missing_weights_text(bundled@, gguf@, mmproj@)),
        },
{
    if bundled_has_weights {
        return Ok(bundled);
    }
    match dev {
        Some(d) => Ok(d),
        None => Err(missing_weights_error(bundled.as_str(), gguf, mmproj)),
    }
}

} // verus!
