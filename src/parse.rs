//! Parsers for the lines that the package manager's tools print, and for
//! the source entries of a build recipe.
use crate::error::Error;
use crate::package::{Package, ParsedUpdate};
use crate::text::{
    after_last, before_first, chars_of, contains, cut_first, cut_last, lemma_first_index,
    split_char, split_on_char, split_once, rsplit_once, starts_with, string_of, window_equals,
    window_starts_with,
};
use vstd::prelude::*;

verus! {

/// A combined `version-release` string cut at its last `-`.
pub open spec fn ver_and_rel(s: Seq<char>) -> Option<(Seq<char>, Seq<char>)> {
    rsplit_once(s, "-"@)
}

/// `r` failed with `ParseErrorPkgverPkgrel` holding `text`.
pub open spec fn fails_ver_rel<T>(r: Result<T, Error>, text: Seq<char>) -> bool {
    r matches Err(Error::ParseErrorPkgverPkgrel(s)) && s@ == text
}

/// `r` failed with `ParseErrorCheckUpdates` holding `text`.
pub open spec fn fails_check_updates<T>(r: Result<T, Error>, text: Seq<char>) -> bool {
    r matches Err(Error::ParseErrorCheckUpdates(s)) && s@ == text
}

/// `r` failed with `ParseErrorPacman` holding `text`.
pub open spec fn fails_pacman<T>(r: Result<T, Error>, text: Seq<char>) -> bool {
    r matches Err(Error::ParseErrorPacman(s)) && s@ == text
}

/// Splits a combined `version-release` string at its last `-`.
/// Example input: `1.26.15-1`.
pub fn parse_ver_and_rel(version: &str) -> (r: Result<(String, String), Error>)
    ensures
        match ver_and_rel(version@) {
            Some(parts) => r matches Ok(p) && p.0@ == parts.0 && p.1@ == parts.1,
            None => fails_ver_rel(r, version@),
        },
{
    let v = chars_of(version);
    let dash = chars_of("-");
    match cut_last(&v, 0, v.len(), &dash) {
        Some(k) => {
            assert(v@.subrange(0, v.len() as int) =~= v@);
            Ok((string_of(&v, 0, k), string_of(&v, k + dash.len(), v.len())))
        },
        None => {
            assert(v@.subrange(0, v.len() as int) =~= v@);
            Err(Error::ParseErrorPkgverPkgrel(string_of(&v, 0, v.len())))
        },
    }
}

/// Parses a line of the listing of foreign packages.
/// Example input: `watchman-bin 2024.04.15.00-1`.
pub fn parse_pacman_qm(line: &str) -> (r: Result<Package, Error>)
    ensures
        match split_once(line@, " "@) {
            None => fails_pacman(r, line@),
            Some(parts) => match ver_and_rel(parts.1) {
                None => fails_ver_rel(r, parts.1),
                Some(vr) => r matches Ok(p) && p.pkgname@ == parts.0 && p.pkgver@ == vr.0
                    && p.pkgrel@ == vr.1,
            },
        },
{
    let v = chars_of(line);
    let space = chars_of(" ");
    assert(v@.subrange(0, v.len() as int) =~= v@);
    match cut_first(&v, 0, v.len(), &space) {
        None => Err(Error::ParseErrorPacman(string_of(&v, 0, v.len()))),
        Some(k) => {
            let rest = string_of(&v, k + space.len(), v.len());
            let (pkgver, pkgrel) = parse_ver_and_rel(rest.as_str())?;
            Ok(Package { pkgname: string_of(&v, 0, k), pkgver, pkgrel })
        },
    }
}

/// Parses a line of the pending-update tool's output.
/// Example input: `libadwaita 1:1.6.0-1 -> 1:1.6.1-1`.
pub fn parse_update(value: &str) -> (r: Result<ParsedUpdate, Error>)
    ensures
        ({
            let t = split_char(value@, ' ');
            if t.len() < 2 {
                fails_check_updates(r, value@)
            } else {
                match ver_and_rel(t[1]) {
                    None => fails_ver_rel(r, t[1]),
                    Some(cur) => if t.len() < 4 {
                        fails_check_updates(r, value@)
                    } else {
                        match ver_and_rel(t[3]) {
                            None => fails_ver_rel(r, t[3]),
                            Some(new) => r matches Ok(u) && u.pkgname@ == t[0] && u.pkgver_cur@
                                == cur.0 && u.pkgrel_cur@ == cur.1 && u.pkgver_new@ == new.0
                                && u.pkgrel_new@ == new.1,
                        }
                    },
                }
            }
        }),
{
    let v = chars_of(value);
    let tokens = split_on_char(&v, ' ');
    assert(tokens.deep_view().len() == tokens.len());
    if tokens.len() < 2 {
        return Err(Error::ParseErrorCheckUpdates(String::from_str(value)));
    }
    assert(tokens[1]@ == tokens.deep_view()[1]);
    let (pkgver_cur, pkgrel_cur) = parse_ver_and_rel(tokens[1].as_str())?;
    if tokens.len() < 4 {
        return Err(Error::ParseErrorCheckUpdates(String::from_str(value)));
    }
    assert(tokens[0]@ == tokens.deep_view()[0]);
    assert(tokens[3]@ == tokens.deep_view()[3]);
    let (pkgver_new, pkgrel_new) = parse_ver_and_rel(tokens[3].as_str())?;
    Ok(ParsedUpdate {
        pkgname: tokens[0].clone(),
        pkgver_cur,
        pkgrel_cur,
        pkgver_new,
        pkgrel_new,
    })
}

/// A git source of a build recipe: where to query for the newest commit.
#[derive(Clone, Debug, Eq, PartialEq)]
pub struct PackageUrl<'a> {
    /// The repository, as `protocol://host/path`.
    pub remote: String,
    pub protocol: &'a str,
    /// The branch to follow; the remote's HEAD where there is none.
    pub branch: Option<&'a str>,
}

/// The view of an optional string slice.
pub open spec fn opt_view(o: Option<&str>) -> Option<Seq<char>> {
    match o {
        Some(s) => Some(s@),
        None => None,
    }
}

/// A source entry with its `filename::` prefix, if any, taken off.
pub open spec fn source_location(source: Seq<char>) -> Seq<char> {
    match split_once(source, "::"@) {
        Some(parts) => parts.1,
        None => source,
    }
}

/// What a source entry of a build recipe names, as remote, protocol and
/// branch: none where it is no git url, or where its fragment pins a commit
/// or a tag. A fragment of another kind than `branch` names no branch.
pub open spec fn git_source(source: Seq<char>) -> Option<(Seq<char>, Seq<char>, Option<Seq<char>>)> {
    let url = source_location(source);
    match split_once(url, "://"@) {
        None => None,
        Some(parts) => if !starts_with(url, "git"@) {
            None
        } else {
            let protocol = after_last(parts.0, "+"@);
            let remote = protocol + "://"@ + before_first(before_first(parts.1, "#"@), "?"@);
            match split_once(parts.1, "#"@) {
                None => Some((remote, protocol, None)),
                Some(frag) => {
                    let fragment = before_first(frag.1, "?"@);
                    let kind = before_first(fragment, "="@);
                    if kind == "commit"@ || kind == "tag"@ {
                        None
                    } else if kind == "branch"@ {
                        Some(
                            (
                                remote,
                                protocol,
                                match split_once(fragment, "="@) {
                                    Some(kv) => Some(kv.1),
                                    None => None,
                                },
                            ),
                        )
                    } else {
                        Some((remote, protocol, None))
                    }
                },
            }
        },
    }
}

/// Parses an entry of the `source` array of a build recipe.
/// Example input: `name::git+https://host/path.git#branch=main`.
pub fn parse_url<'a>(source: &'a str) -> (r: Option<PackageUrl<'a>>)
    ensures
        match git_source(source@) {
            None => r is None,
            Some(g) => r matches Some(u) && u.remote@ == g.0 && u.protocol@ == g.1 && opt_view(
                u.branch,
            ) == g.2,
        },
{
    let v = chars_of(source);
    let n = v.len();
    let ghost s = v@;
    assert(v@.subrange(0, n as int) =~= v@);
    let double_colon = chars_of("::");
    let start = match cut_first(&v, 0, n, &double_colon) {
        Some(k) => k + double_colon.len(),
        None => 0,
    };
    let ghost url = v@.subrange(start as int, n as int);
    assert(url == source_location(s));
    let scheme_sep = chars_of("://");
    let k = match cut_first(&v, start, n, &scheme_sep) {
        Some(k) => k,
        None => return None,
    };
    let git = chars_of("git");
    if !window_starts_with(&v, start, n, &git) {
        return None;
    }
    // The protocol: what follows the last `+` before `://`.
    let plus = chars_of("+");
    let pf = match cut_last(&v, start, k, &plus) {
        Some(j) => j + plus.len(),
        None => start,
    };
    let ghost protocol = v@.subrange(pf as int, k as int);
    let rest_from = k + scheme_sep.len();
    let hash = chars_of("#");
    let question = chars_of("?");
    let frag = cut_first(&v, rest_from, n, &hash);
    let rp_end = match frag {
        Some(h) => h,
        None => n,
    };
    let remote_end = match cut_first(&v, rest_from, rp_end, &question) {
        Some(q) => q,
        None => rp_end,
    };
    let mut remote = string_of(&v, pf, k);
    remote.append("://");
    let remote_tail = string_of(&v, rest_from, remote_end);
    remote.append(remote_tail.as_str());
    let protocol_str = source.substring_char(pf, k);
    let branch = match frag {
        None => None,
        Some(h) => {
            let f_from = h + hash.len();
            let f_end = match cut_first(&v, f_from, n, &question) {
                Some(q) => q,
                None => n,
            };
            let equals = chars_of("=");
            let eq = cut_first(&v, f_from, f_end, &equals);
            let kind_end = match eq {
                Some(e) => e,
                None => f_end,
            };
            let commit = chars_of("commit");
            let tag = chars_of("tag");
            let branch_kw = chars_of("branch");
            if window_equals(&v, f_from, kind_end, &commit) || window_equals(
                &v,
                f_from,
                kind_end,
                &tag,
            ) {
                return None;
            }
            if window_equals(&v, f_from, kind_end, &branch_kw) {
                match eq {
                    Some(e) => Some(source.substring_char(e + equals.len(), f_end)),
                    None => None,
                }
            } else {
                None
            }
        },
    };
    Some(PackageUrl { remote, protocol: protocol_str, branch })
}

/// The kind of the fragment of a source entry's url (what precedes its
/// `=`), where the url has a fragment.
pub open spec fn fragment_kind(source: Seq<char>) -> Option<Seq<char>> {
    match split_once(source_location(source), "://"@) {
        None => None,
        Some(parts) => match split_once(parts.1, "#"@) {
            None => None,
            Some(frag) => Some(before_first(before_first(frag.1, "?"@), "="@)),
        },
    }
}

/// A source entry gives no url where its location does not start with
/// `git`, where it holds no `://`, or where its fragment pins a commit or a
/// tag.
pub proof fn lemma_unusable_sources_give_no_url(source: Seq<char>)
    ensures
        !starts_with(source_location(source), "git"@) ==> git_source(source) is None,
        !contains(source_location(source), "://"@) ==> git_source(source) is None,
        fragment_kind(source) == Some("commit"@) ==> git_source(source) is None,
        fragment_kind(source) == Some("tag"@) ==> git_source(source) is None,
{
    lemma_first_index(source_location(source), "://"@);
}

} // verus!
