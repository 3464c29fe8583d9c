//! The pacman checker's decisions: the pending-update tool's answer read
//! into updates, each annotated with its sync repository.
use crate::error::Error;
use crate::package::{PacmanUpdate, ParsedUpdate};
use crate::parse::{fails_check_updates, fails_ver_rel, parse_update, ver_and_rel};
use crate::source_repo::{add_sources_to_updates, lookup, SourceRepo, SourcesList};
use crate::text::split_char;
use vstd::prelude::*;

verus! {

/// The repository listing of the last successful online pacman check, for
/// offline checks.
#[derive(Clone, Debug, Default)]
pub struct PacmanUpdatesCache {
    pub sources: SourcesList,
}

/// The exit status with which the pending-update tool reports that nothing
/// is pending.
pub const NO_UPDATES_STATUS: i32 = 2;

/// The five fields of a line of the pending-update tool's output (name,
/// installed version and release, new version and release), where the line
/// has that shape.
pub open spec fn update_fields(line: Seq<char>) -> Option<(Seq<char>, Seq<char>, Seq<char>, Seq<char>, Seq<char>)> {
    let t = split_char(line, ' ');
    if t.len() < 4 {
        None
    } else {
        match (ver_and_rel(t[1]), ver_and_rel(t[3])) {
            (Some(cur), Some(new)) => Some((t[0], cur.0, cur.1, new.0, new.1)),
            _ => None,
        }
    }
}

/// `r` failed as `parse_update` fails on `line`, a line of the wrong shape.
pub open spec fn fails_as_update_line<T>(r: Result<T, Error>, line: Seq<char>) -> bool {
    let t = split_char(line, ' ');
    if t.len() < 2 || (ver_and_rel(t[1]) is Some && t.len() < 4) {
        fails_check_updates(r, line)
    } else if ver_and_rel(t[1]) is None {
        fails_ver_rel(r, t[1])
    } else {
        fails_ver_rel(r, t[3])
    }
}

/// `u` holds the fields `f`.
pub open spec fn has_fields(u: ParsedUpdate, f: (Seq<char>, Seq<char>, Seq<char>, Seq<char>, Seq<char>)) -> bool {
    u.pkgname@ == f.0 && u.pkgver_cur@ == f.1 && u.pkgrel_cur@ == f.2 && u.pkgver_new@ == f.3
        && u.pkgrel_new@ == f.4
}

/// Parses the lines of the pending-update tool's output; the first line of
/// the wrong shape fails them all.
pub fn parse_updates(lines: &Vec<String>) -> (r: Result<Vec<ParsedUpdate>, Error>)
    ensures
        r is Ok <==> forall|i: int| 0 <= i < lines.len() ==> update_fields(#[trigger] lines[i]@) is Some,
        r matches Ok(v) ==> v.len() == lines.len() && forall|i: int|
            0 <= i < lines.len() ==> has_fields(#[trigger] v[i], update_fields(lines[i]@)->0),
        r is Err ==> exists|i: int|
            0 <= i < lines.len() && update_fields(#[trigger] lines[i]@) is None && fails_as_update_line(
                r,
                lines[i]@,
            ) && forall|j: int| 0 <= j < i ==> update_fields(#[trigger] lines[j]@) is Some,
{
    let mut v: Vec<ParsedUpdate> = Vec::new();
    let mut i: usize = 0;
    while i < lines.len()
        invariant
            i <= lines.len(),
            v.len() == i,
            forall|j: int| 0 <= j < i ==> update_fields(#[trigger] lines[j]@) is Some,
            forall|j: int| 0 <= j < i ==> has_fields(#[trigger] v[j], update_fields(lines[j]@)->0),
        decreases lines.len() - i,
    {
        match parse_update(lines[i].as_str()) {
            Ok(u) => {
                v.push(u);
            },
            Err(e) => {
                let r: Result<Vec<ParsedUpdate>, Error> = Err(e);
                assert(update_fields(lines[i as int]@) is None);
                assert(fails_as_update_line(r, lines[i as int]@));
                return r;
            },
        }
        i = i + 1;
    }
    Ok(v)
}

/// The pending updates from what the pending-update tool returned: its
/// exit status (`None` where it was ended by a signal), its output lines and
/// its error text. Status 0 means updates are listed, the status that means
/// none are pending gives none, and any other fails with the error text.
pub fn checkupdates_result(status: Option<i32>, lines: &Vec<String>, stderr: String) -> (r: Result<Vec<ParsedUpdate>, Error>)
    ensures
        status == Some(0i32) ==> (r is Ok <==> forall|i: int|
            0 <= i < lines.len() ==> update_fields(#[trigger] lines[i]@) is Some),
        status == Some(0i32) ==> (r matches Ok(v) ==> v.len() == lines.len() && forall|i: int|
            0 <= i < lines.len() ==> has_fields(#[trigger] v[i], update_fields(lines[i]@)->0)),
        status == Some(NO_UPDATES_STATUS) ==> (r matches Ok(v) && v.len() == 0),
        status != Some(0i32) && status != Some(NO_UPDATES_STATUS) ==> (r matches Err(
            Error::CheckUpdatesReturnedError(s),
        ) && s == stderr),
{
    match status {
        Some(0i32) => parse_updates(lines),
        Some(NO_UPDATES_STATUS) => Ok(Vec::new()),
        _ => Err(Error::CheckUpdatesReturnedError(stderr)),
    }
}

/// `r` is `u` annotated with its repository in `entries`.
pub open spec fn annotated(r: PacmanUpdate, u: ParsedUpdate, entries: Seq<(String, SourceRepo)>) -> bool {
    &&& r.pkgname == u.pkgname
    &&& r.pkgver_cur == u.pkgver_cur
    &&& r.pkgrel_cur == u.pkgrel_cur
    &&& r.pkgver_new == u.pkgver_new
    &&& r.pkgrel_new == u.pkgrel_new
    &&& r.source_repo == lookup(entries, u.pkgname@)
}

/// The online pacman check's decisions: each pending update annotated
/// with its repository, and the listing kept for offline checks.
pub fn pacman_updates_online(parsed: Vec<ParsedUpdate>, sources: SourcesList) -> (r: (Vec<PacmanUpdate>, PacmanUpdatesCache))
    ensures
        r.1.sources == sources,
        r.0.len() == parsed.len(),
        forall|i: int| 0 <= i < parsed.len() ==> annotated(#[trigger] r.0[i], parsed[i], sources.entries@),
{
    let updates = add_sources_to_updates(parsed, &sources);
    (updates, PacmanUpdatesCache { sources })
}

/// The offline pacman check's decisions: each pending update annotated
/// with its repository in the cached listing.
pub fn pacman_updates_offline(parsed: Vec<ParsedUpdate>, cache: &PacmanUpdatesCache) -> (r: Vec<PacmanUpdate>)
    ensures
        r.len() == parsed.len(),
        forall|i: int| 0 <= i < parsed.len() ==> annotated(#[trigger] r[i], parsed[i], cache.sources.entries@),
{
    add_sources_to_updates(parsed, &cache.sources)
}

} // verus!
