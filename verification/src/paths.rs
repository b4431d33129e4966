//! Path assembly: joining a directory with a relative name, and locating the
//! per-user configuration directory and file.
//!
//! Paths are held as plain strings. Joining follows the usual rule for a
//! relative right-hand side: a separator is inserted unless the directory is
//! empty or already ends with one.

use vstd::prelude::*;

verus! {

/// What joining a directory with a relative name yields.
pub open spec fn path_join_chars(dir: Seq<char>, name: Seq<char>) -> Seq<char> {
    if dir.len() == 0 {
        name
    } else if dir.last() == '/' {
        dir + name
    } else {
        dir + seq!['/'] + name
    }
}

/// Joins a directory with a relative file or directory name.
pub fn path_join(dir: &str, name: &str) -> (r: String)
    ensures
        r@ == path_join_chars(dir@, name@),
{
    let n = dir.unicode_len();
    if n == 0 {
        return name.to_owned();
    }
    let last = dir.get_char(n - 1);
    let mut s = dir.to_owned();
    if last != '/' {
        s.append("/");
        proof {
            reveal_strlit("/");
            assert(s@ =~= dir@ + seq!['/']);
        }
    }
    s.append(name);
    proof {
        if last == '/' {
            assert(s@ =~= dir@ + name@);
        } else {
            assert(s@ =~= dir@ + seq!['/'] + name@);
        }
    }
    s
}

/// Relies on `dirs::config_dir`: the per-user configuration directory, read
/// from the environment. Yields `None` when the platform offers none or the
/// path is not valid Unicode; nothing more is assumed of the outcome.
#[verifier::external_body]
fn system_config_dir() -> Option<String> {
    match dirs::config_dir() {
        Option::Some(p) => p.into_os_string().into_string().ok(),
        Option::None => Option::None,
    }
}

/// The home of the configuration: the system's per-user configuration
/// directory when one is known, else the given fallback (the caller passes
/// the current working directory).
pub fn get_config_home(system: Option<String>, fallback: &str) -> (r: String)
    ensures
        r@ == match system {
            Option::Some(d) => d@,
            Option::None => fallback@,
        },
{
    match system {
        Option::Some(d) => d,
        Option::None => fallback.to_owned(),
    }
}

/// This utility's own configuration directory: the application subdirectory
/// of some configuration home (the system's, or the given fallback).
pub fn get_config_dir(fallback: &str) -> (r: String)
    ensures
        exists|home: Seq<char>| r@ == path_join_chars(home, "clipsaver"@),
{
    let home = get_config_home(system_config_dir(), fallback);
    let r = path_join(home.as_str(), "clipsaver");
    proof {
        assert(r@ == path_join_chars(home@, "clipsaver"@));
    }
    r
}

/// The base name (without extension) under which the configuration is looked
/// up inside the configuration directory.
pub fn config_file_name(config_dir: &str) -> (r: String)
    ensures
        r@ == path_join_chars(config_dir@, "config"@),
{
    path_join(config_dir, "config")
}

/// The file to which a "set persisted directory" request writes.
pub fn config_file_path(config_dir: &str) -> (r: String)
    ensures
        r@ == path_join_chars(config_dir@, "config.ini"@),
{
    path_join(config_dir, "config.ini")
}

/// What the configuration file records for a directory override.
pub open spec fn config_contents_chars(directory: Seq<char>) -> Seq<char> {
    "directory = "@ + directory
}

/// The full contents written to the configuration file when persisting a
/// directory override.
pub fn config_file_contents(directory: &str) -> (r: String)
    ensures
        r@ == config_contents_chars(directory@),
{
    let mut s = "directory = ".to_owned();
    s.append(directory);
    s
}

} // verus!
