//! The directory resolver: merges the optional directory overrides by fixed
//! precedence — command line first, then persisted configuration, then the
//! current working directory (`"."`) — and shell-expands the chosen value.
//!
//! The configuration override handed in here is the one the configuration
//! loader produced; an environment override enters through that loader, where
//! an explicit file value wins over the environment.

use vstd::prelude::*;

use crate::errors::Error;

verus! {

/// The characters of an optional string.
pub open spec fn opt_chars(o: Option<String>) -> Option<Seq<char>> {
    match o {
        Option::Some(s) => Option::Some(s@),
        Option::None => Option::None,
    }
}

/// The override that the fixed precedence picks: the command-line value if
/// present, else the configured value, else the current working directory.
pub open spec fn chosen_directory(cli: Option<Seq<char>>, config: Option<Seq<char>>) -> Seq<char> {
    match cli {
        Option::Some(d) => d,
        Option::None => match config {
            Option::Some(d) => d,
            Option::None => "."@,
        },
    }
}

/// True when the string holds a `$` anywhere: only such strings can make
/// shell expansion look a variable up, and only such lookups can fail.
pub open spec fn has_dollar(s: Seq<char>) -> bool {
    exists|i: int| 0 <= i < s.len() && s[i] == '$'
}

/// True when the string starts with `~`, the only place a tilde is expanded.
pub open spec fn starts_tilde(s: Seq<char>) -> bool {
    s.len() > 0 && s[0] == '~'
}

/// Picks the directory override by precedence, without expanding it.
pub fn choose_directory(cli: &Option<String>, config: &Option<String>) -> (r: String)
    ensures
        r@ == chosen_directory(opt_chars(*cli), opt_chars(*config)),
{
    match cli {
        Option::Some(d) => d.clone(),
        Option::None => match config {
            Option::Some(d) => d.clone(),
            Option::None => ".".to_owned(),
        },
    }
}

/// Relies on `shellexpand::full`: expands a leading `~` to the invoking
/// user's home directory and `$VAR` references to environment values. A
/// string with no `$` and no leading `~` comes back unchanged; one with no
/// `$` and a leading `~` keeps everything after the `~` as a suffix, with the
/// `~` replaced by some prefix (the home directory, or the `~` itself when no
/// home is known). A lookup error can arise only from a `$` reference. What a
/// successful substitution of a `$` reference yields is deliberately not
/// pinned here: stating it would restate the expansion grammar inside this
/// trusted contract, and the values substituted come from the environment.
#[verifier::external_body]
fn expand_path(s: &str) -> (r: Result<String, Error>)
    ensures
        r matches Ok(t) ==> (!has_dollar(s@) && !starts_tilde(s@) ==> t@ == s@),
        r matches Ok(t) ==> (!has_dollar(s@) && starts_tilde(s@) ==> exists|home: Seq<char>|
            t@ == home + s@.skip(1)),
        r matches Err(e) ==> e == Error::PathExpansionError && has_dollar(s@),
{
    match shellexpand::full(s) {
        Ok(expanded) => Ok(expanded.into_owned()),
        Err(_) => Err(Error::PathExpansionError),
    }
}

/// Resolves the directory to save into: the first present override (command
/// line, then configuration, then `"."`), shell-expanded. An override without
/// a `$` or a leading `~` is returned exactly as chosen; one with a leading
/// `~` and no `$` keeps everything after the `~` as a suffix; an unresolvable
/// `$` reference is a fatal `PathExpansionError`, never ignored. What a
/// successful substitution of a `$` reference yields is environment-decided
/// and left unpinned, as at `expand_path`.
pub fn get_save_directory(cli: &Option<String>, config: &Option<String>) -> (r: Result<
    String,
    Error,
>)
    ensures
        r matches Ok(d) ==> (!has_dollar(chosen_directory(opt_chars(*cli), opt_chars(*config)))
            && !starts_tilde(chosen_directory(opt_chars(*cli), opt_chars(*config))) ==> d@
            == chosen_directory(opt_chars(*cli), opt_chars(*config))),
        r matches Ok(d) ==> (!has_dollar(chosen_directory(opt_chars(*cli), opt_chars(*config)))
            && starts_tilde(chosen_directory(opt_chars(*cli), opt_chars(*config))) ==> exists|
            home: Seq<char>,
        |
            d@ == home + chosen_directory(opt_chars(*cli), opt_chars(*config)).skip(1)),
        r matches Err(e) ==> e == Error::PathExpansionError && has_dollar(
            chosen_directory(opt_chars(*cli), opt_chars(*config)),
        ),
{
    let chosen = choose_directory(cli, config);
    expand_path(chosen.as_str())
}

} // verus!
