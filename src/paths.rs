use vstd::prelude::*;
use vstd::string::*;

verus! {

/// The operating-system family a path or a launch is meant for.
#[derive(Debug, Clone, Copy, PartialEq, Eq, Structural)]
pub enum TargetOs {
    Windows,
    Other,
}

/// The separator that joining inserts.
pub open spec fn separator(os: TargetOs) -> char {
    match os {
        TargetOs::Windows => '\\',
        TargetOs::Other => '/',
    }
}

/// A character that ends a path component.
pub open spec fn is_separator(os: TargetOs, c: char) -> bool {
    c == '/' || (os == TargetOs::Windows && c == '\\')
}

/// `base` followed by the relative component `name`, with one separator
/// between them unless `base` is empty or already ends with one.
pub open spec fn joined(base: Seq<char>, name: Seq<char>, os: TargetOs) -> Seq<char> {
    if base.len() == 0 || is_separator(os, base.last()) {
        base + name
    } else {
        base.push(separator(os)) + name
    }
}

/// The four-character marker of a Windows extended-length path.
pub open spec fn extended_prefix() -> Seq<char> {
    seq!['\\', '\\', '?', '\\']
}

/// A path with the extended-length marker taken off where the platform has one.
pub open spec fn normalized(path: Seq<char>, os: TargetOs) -> Seq<char> {
    if os == TargetOs::Windows && path.len() >= 4 && path.subrange(0, 4) == extended_prefix() {
        path.subrange(4, path.len() as int)
    } else {
        path
    }
}

/// Appends the relative component `name` to `base`.
pub fn join(base: &str, name: &str, os: TargetOs) -> (r: String)
    ensures
        r@ == joined(base@, name@, os),
{
    let n = base.unicode_len();
    let owned = String::from_str(base);
    if n == 0 {
        return owned.concat(name);
    }
    let last = base.get_char(n - 1);
    assert(base@.last() == last);
    let ends_with_separator = last == '/' || (os == TargetOs::Windows && last == '\\');
    if ends_with_separator {
        owned.concat(name)
    } else {
        let sep = match os {
            TargetOs::Windows => "\\",
            TargetOs::Other => "/",
        };
        proof {
            reveal_strlit("\\");
            reveal_strlit("/");
        }
        let with_sep = owned.concat(sep);
        assert(with_sep@ =~= base@.push(separator(os)));
        with_sep.concat(name)
    }
}

/// Strips the Windows extended-length marker (`\\?\`), which the server's
/// runtime does not understand; on other platforms the path is kept as given.
pub fn strip_extended_length_prefix(path: String, os: TargetOs) -> (r: String)
    ensures
        r@ == normalized(path@, os),
{
    if os != TargetOs::Windows {
        return path;
    }
    let n = path.as_str().unicode_len();
    if n < 4 {
        return path;
    }
    let s = path.as_str();
    let c0 = s.get_char(0);
    let c1 = s.get_char(1);
    let c2 = s.get_char(2);
    let c3 = s.get_char(3);
    if c0 == '\\' && c1 == '\\' && c2 == '?' && c3 == '\\' {
        assert(path@.subrange(0, 4) =~= extended_prefix());
        String::from_str(s.substring_char(4, n))
    } else {
        assert(path@.subrange(0, 4)[0] == c0);
        assert(path@.subrange(0, 4)[1] == c1);
        assert(path@.subrange(0, 4)[2] == c2);
        assert(path@.subrange(0, 4)[3] == c3);
        path
    }
}

/// Name of the application's directory under the per-user directories.
pub open spec fn app_dir_name() -> Seq<char> {
    "MeshMonitor"@
}

/// Where the settings file lies under the per-user configuration directory.
pub open spec fn config_file_in(config_dir: Seq<char>, os: TargetOs) -> Seq<char> {
    joined(joined(config_dir, app_dir_name(), os), "config.json"@, os)
}

/// The application's data root under the per-user data directory.
pub open spec fn data_root_in(data_dir: Seq<char>, os: TargetOs) -> Seq<char> {
    joined(data_dir, app_dir_name(), os)
}

/// The settings file under a given per-user configuration directory.
pub fn config_path_in(config_dir: &str, os: TargetOs) -> (r: String)
    ensures
        r@ == config_file_in(config_dir@, os),
{
    proof {
        reveal_strlit("MeshMonitor");
        reveal_strlit("config.json");
    }
    let app = join(config_dir, "MeshMonitor", os);
    join(app.as_str(), "config.json", os)
}

/// The data root under a given per-user data directory.
pub fn data_path_in(data_dir: &str, os: TargetOs) -> (r: String)
    ensures
        r@ == data_root_in(data_dir@, os),
{
    proof {
        reveal_strlit("MeshMonitor");
    }
    join(data_dir, "MeshMonitor", os)
}

/// Relies on dirs::config_dir for the per-user configuration directory,
/// which the platform may not supply.
#[verifier::external_body]
fn user_config_dir() -> (r: Option<String>) {
    match dirs::config_dir() {
        Some(p) => Some(p.to_string_lossy().into_owned()),
        None => None,
    }
}

/// Relies on dirs::data_dir for the per-user data directory, which the
/// platform may not supply.
#[verifier::external_body]
fn user_data_dir() -> (r: Option<String>) {
    match dirs::data_dir() {
        Some(p) => Some(p.to_string_lossy().into_owned()),
        None => None,
    }
}

/// The settings file's path, or an error where the platform has no
/// per-user configuration directory.
pub fn get_config_path(os: TargetOs) -> (r: Result<String, String>)
    ensures
        r is Ok ==> exists|d: Seq<char>| r->Ok_0@ == config_file_in(d, os),
        r is Err ==> r->Err_0@ == "Could not find config directory"@,
{
    match user_config_dir() {
        Some(d) => Ok(config_path_in(d.as_str(), os)),
        None => {
            proof {
                reveal_strlit("Could not find config directory");
            }
            Err(String::from_str("Could not find config directory"))
        },
    }
}

/// The data root's path, or an error where the platform has no per-user
/// data directory. The directory itself is not created here.
pub fn get_data_path(os: TargetOs) -> (r: Result<String, String>)
    ensures
        r is Ok ==> exists|d: Seq<char>| r->Ok_0@ == data_root_in(d, os),
        r is Err ==> r->Err_0@ == "Could not find data directory"@,
{
    match user_data_dir() {
        Some(d) => Ok(data_path_in(d.as_str(), os)),
        None => {
            proof {
                reveal_strlit("Could not find data directory");
            }
            Err(String::from_str("Could not find data directory"))
        },
    }
}

/// The database file under the data root.
pub fn get_database_path(data_root: &str, os: TargetOs) -> (r: String)
    ensures
        r@ == joined(data_root@, "meshmonitor.db"@, os),
{
    proof {
        reveal_strlit("meshmonitor.db");
    }
    join(data_root, "meshmonitor.db", os)
}

/// The logs directory under the data root.
pub fn get_logs_path(data_root: &str, os: TargetOs) -> (r: String)
    ensures
        r@ == joined(data_root@, "logs"@, os),
{
    proof {
        reveal_strlit("logs");
    }
    join(data_root, "logs", os)
}

} // verus!
