//! The AUR checker's decisions: which installed packages have newer
//! versions in the AUR, online from the AUR's answer and offline from the
//! records that the last online check kept.
use crate::due::{aur_due_of, aur_update_due};
use crate::error::Error;
use crate::package::{AurUpdate, Package};
use crate::parse::{fails_pacman, fails_ver_rel, parse_pacman_qm, parse_ver_and_rel, ver_and_rel};
use crate::text::{chars_of, contains, contains_exec, split_once};
use vstd::prelude::*;

verus! {

broadcast use vstd::seq_lib::group_seq_properties;

/// What the AUR reports of a package: its name and combined
/// `version-release` string.
#[derive(Clone, Debug, Eq, PartialEq)]
pub struct AurPackageInfo {
    pub name: String,
    pub version: String,
}

/// The records of the last successful online AUR check, for offline checks:
/// one for each package that the AUR answered for, due or not.
#[derive(Clone, Debug, Default)]
pub struct AurUpdatesCache {
    pub updates: Vec<AurUpdate>,
}

/// The first installed package of that name.
pub open spec fn find_installed(installed: Seq<Package>, name: Seq<char>) -> Option<Package>
    decreases installed.len(),
{
    if installed.len() == 0 {
        None
    } else if find_installed(installed.drop_last(), name) is Some {
        find_installed(installed.drop_last(), name)
    } else if installed.last().pkgname@ == name {
        Some(installed.last())
    } else {
        None
    }
}

/// The first record of that package name.
pub open spec fn find_cached(cache: Seq<AurUpdate>, name: Seq<char>) -> Option<AurUpdate>
    decreases cache.len(),
{
    if cache.len() == 0 {
        None
    } else if find_cached(cache.drop_last(), name) is Some {
        find_cached(cache.drop_last(), name)
    } else if cache.last().pkgname@ == name {
        Some(cache.last())
    } else {
        None
    }
}

/// No two installed packages share a name.
pub open spec fn unique_names(installed: Seq<Package>) -> bool {
    forall|i: int, j: int|
        0 <= i < installed.len() && 0 <= j < installed.len() && (#[trigger] installed[i]).pkgname@
            == (#[trigger] installed[j]).pkgname@ ==> i == j
}

/// The AUR's answers that concern an installed package.
pub open spec fn matched(installed: Seq<Package>, info: Seq<AurPackageInfo>) -> Seq<AurPackageInfo> {
    info.filter(|e: AurPackageInfo| find_installed(installed, e.name@) is Some)
}

/// `u` pairs the installed package named by `e` with the version and
/// release that `e` reports.
pub open spec fn aur_record(installed: Seq<Package>, e: AurPackageInfo, u: AurUpdate) -> bool {
    &&& find_installed(installed, e.name@) matches Some(o)
    &&& u.pkgname == o.pkgname
    &&& u.pkgver_cur == o.pkgver
    &&& u.pkgrel_cur == o.pkgrel
    &&& ver_and_rel(e.version@) matches Some(vr)
    &&& u.pkgver_new@ == vr.0
    &&& u.pkgrel_new@ == vr.1
}

/// `cache` holds one record for each answer that concerns an installed
/// package, in the order of the answers.
pub open spec fn aur_records(installed: Seq<Package>, info: Seq<AurPackageInfo>, cache: Seq<AurUpdate>) -> bool {
    let m = matched(installed, info);
    &&& cache.len() == m.len()
    &&& forall|k: int| 0 <= k < m.len() ==> aur_record(installed, m[k], #[trigger] cache[k])
}

/// The updates among `s` that are due.
pub open spec fn due_aur_updates(s: Seq<AurUpdate>) -> Seq<AurUpdate> {
    s.filter(|u: AurUpdate| aur_due_of(u))
}

/// An installed package against its cached record.
pub open spec fn offline_candidate(p: Package, c: AurUpdate) -> AurUpdate {
    AurUpdate {
        pkgname: p.pkgname,
        pkgver_cur: p.pkgver,
        pkgrel_cur: p.pkgrel,
        pkgver_new: c.pkgver_new,
        pkgrel_new: c.pkgrel_new,
    }
}

/// Each installed package that has a cached record, against that record.
pub open spec fn aur_offline_candidates(installed: Seq<Package>, cache: Seq<AurUpdate>) -> Seq<AurUpdate>
    decreases installed.len(),
{
    if installed.len() == 0 {
        Seq::empty()
    } else {
        let prev = aur_offline_candidates(installed.drop_last(), cache);
        match find_cached(cache, installed.last().pkgname@) {
            Some(c) => prev.push(offline_candidate(installed.last(), c)),
            None => prev,
        }
    }
}

proof fn lemma_due_aur_push(s: Seq<AurUpdate>, u: AurUpdate)
    ensures
        due_aur_updates(s.push(u)) == if aur_due_of(u) {
            due_aur_updates(s).push(u)
        } else {
            due_aur_updates(s)
        },
{
    reveal(Seq::filter);
    assert(s.push(u).drop_last() =~= s);
}

proof fn lemma_matched_push(installed: Seq<Package>, info: Seq<AurPackageInfo>, e: AurPackageInfo)
    ensures
        matched(installed, info.push(e)) == if find_installed(installed, e.name@) is Some {
            matched(installed, info).push(e)
        } else {
            matched(installed, info)
        },
{
    reveal(Seq::filter);
    assert(info.push(e).drop_last() =~= info);
}

impl AurUpdate {
    /// A copy of this value.
    pub fn duplicate(&self) -> (r: AurUpdate)
        ensures
            r == *self,
    {
        AurUpdate {
            pkgname: self.pkgname.clone(),
            pkgver_cur: self.pkgver_cur.clone(),
            pkgrel_cur: self.pkgrel_cur.clone(),
            pkgver_new: self.pkgver_new.clone(),
            pkgrel_new: self.pkgrel_new.clone(),
        }
    }
}

fn find_installed_index(installed: &Vec<Package>, name: &String) -> (r: Option<usize>)
    ensures
        match find_installed(installed@, name@) {
            None => r is None,
            Some(p) => r matches Some(k) && k < installed.len() && installed[k as int] == p,
        },
{
    let mut found: Option<usize> = None;
    let mut i: usize = 0;
    while i < installed.len()
        invariant
            i <= installed.len(),
            match find_installed(installed@.take(i as int), name@) {
                None => found is None,
                Some(p) => found matches Some(k) && k < i && installed[k as int] == p,
            },
        decreases installed.len() - i,
    {
        assert(installed@.take(i + 1).drop_last() =~= installed@.take(i as int));
        if found.is_none() && installed[i].pkgname == *name {
            found = Some(i);
        }
        i = i + 1;
    }
    assert(installed@.take(installed.len() as int) =~= installed@);
    found
}

fn find_cached_index(cache: &Vec<AurUpdate>, name: &String) -> (r: Option<usize>)
    ensures
        match find_cached(cache@, name@) {
            None => r is None,
            Some(c) => r matches Some(k) && k < cache.len() && cache[k as int] == c,
        },
{
    let mut found: Option<usize> = None;
    let mut i: usize = 0;
    while i < cache.len()
        invariant
            i <= cache.len(),
            match find_cached(cache@.take(i as int), name@) {
                None => found is None,
                Some(c) => found matches Some(k) && k < i && cache[k as int] == c,
            },
        decreases cache.len() - i,
    {
        assert(cache@.take(i + 1).drop_last() =~= cache@.take(i as int));
        if found.is_none() && cache[i].pkgname == *name {
            found = Some(i);
        }
        i = i + 1;
    }
    assert(cache@.take(cache.len() as int) =~= cache@);
    found
}

/// The updates among `updates` that are due, in order.
pub fn due_aur(updates: &Vec<AurUpdate>) -> (r: Vec<AurUpdate>)
    ensures
        r@ == due_aur_updates(updates@),
{
    let mut r: Vec<AurUpdate> = Vec::new();
    let mut i: usize = 0;
    while i < updates.len()
        invariant
            i <= updates.len(),
            r@ == due_aur_updates(updates@.take(i as int)),
        decreases updates.len() - i,
    {
        assert(updates@.take(i + 1) =~= updates@.take(i as int).push(updates[i as int]));
        proof {
            lemma_due_aur_push(updates@.take(i as int), updates[i as int]);
        }
        if aur_update_due(&updates[i]) {
            r.push(updates[i].duplicate());
        }
        i = i + 1;
    }
    assert(updates@.take(updates.len() as int) =~= updates@);
    r
}

/// The online AUR check's decisions, from the installed foreign packages
/// and the AUR's answer for them: the updates that are due, and the records
/// of all answered packages for later offline checks. Answers for packages
/// that are not installed are passed over; an answer whose version has no
/// release fails the check.
pub fn aur_updates_online(installed: &Vec<Package>, info: &Vec<AurPackageInfo>) -> (r: Result<
    (Vec<AurUpdate>, AurUpdatesCache),
    Error,
>)
    ensures
        r is Ok <==> forall|i: int|
            0 <= i < info.len() && find_installed(installed@, (#[trigger] info[i]).name@) is Some
                ==> ver_and_rel(info[i].version@) is Some,
        r matches Ok(res) ==> aur_records(installed@, info@, res.1.updates@) && res.0@
            == due_aur_updates(res.1.updates@),
        r is Err ==> exists|i: int|
            0 <= i < info.len() && find_installed(installed@, (#[trigger] info[i]).name@) is Some
                && ver_and_rel(info[i].version@) is None && fails_ver_rel(r, info[i].version@)
                && forall|j: int|
                0 <= j < i && find_installed(installed@, (#[trigger] info[j]).name@) is Some
                    ==> ver_and_rel(info[j].version@) is Some,
{
    let mut cache: Vec<AurUpdate> = Vec::new();
    let mut i: usize = 0;
    while i < info.len()
        invariant
            i <= info.len(),
            aur_records(installed@, info@.take(i as int), cache@),
            forall|j: int|
                0 <= j < i && find_installed(installed@, (#[trigger] info[j]).name@) is Some
                    ==> ver_and_rel(info[j].version@) is Some,
        decreases info.len() - i,
    {
        let ghost before = cache@;
        assert(info@.take(i + 1) =~= info@.take(i as int).push(info[i as int]));
        let e = &info[i];
        match find_installed_index(installed, &e.name) {
            None => {},
            Some(k) => {
                let (pkgver_new, pkgrel_new) = parse_ver_and_rel(e.version.as_str())?;
                let o = &installed[k];
                cache.push(
                    AurUpdate {
                        pkgname: o.pkgname.clone(),
                        pkgver_cur: o.pkgver.clone(),
                        pkgrel_cur: o.pkgrel.clone(),
                        pkgver_new,
                        pkgrel_new,
                    },
                );
                assert(cache@ == before.push(cache[cache.len() - 1]));
            },
        }
        proof {
            let m0 = matched(installed@, info@.take(i as int));
            let m1 = matched(installed@, info@.take(i + 1));
            lemma_matched_push(installed@, info@.take(i as int), info[i as int]);
            assert forall|k: int| 0 <= k < m1.len() implies aur_record(
                installed@,
                m1[k],
                #[trigger] cache@[k],
            ) by {
                if k < m0.len() {
                    assert(m1[k] == m0[k]);
                    assert(cache@[k] == before[k]);
                }
            }
        }
        i = i + 1;
    }
    assert(info@.take(info.len() as int) =~= info@);
    let due = due_aur(&cache);
    Ok((due, AurUpdatesCache { updates: cache }))
}

/// The offline AUR check's decisions: each installed foreign package that
/// the cache has a record for, against that record's version, where due.
/// A package without a record is never due.
pub fn aur_updates_offline(installed: &Vec<Package>, cache: &AurUpdatesCache) -> (r: Vec<AurUpdate>)
    ensures
        r@ == due_aur_updates(aur_offline_candidates(installed@, cache.updates@)),
{
    let mut r: Vec<AurUpdate> = Vec::new();
    let mut i: usize = 0;
    while i < installed.len()
        invariant
            i <= installed.len(),
            r@ == due_aur_updates(aur_offline_candidates(installed@.take(i as int), cache.updates@)),
        decreases installed.len() - i,
    {
        let p = &installed[i];
        assert(installed@.take(i + 1).drop_last() =~= installed@.take(i as int));
        match find_cached_index(&cache.updates, &p.pkgname) {
            None => {},
            Some(k) => {
                let c = &cache.updates[k];
                let candidate = AurUpdate {
                    pkgname: p.pkgname.clone(),
                    pkgver_cur: p.pkgver.clone(),
                    pkgrel_cur: p.pkgrel.clone(),
                    pkgver_new: c.pkgver_new.clone(),
                    pkgrel_new: c.pkgrel_new.clone(),
                };
                assert(candidate == offline_candidate(installed[i as int], cache.updates[k as int]));
                proof {
                    lemma_due_aur_push(
                        aur_offline_candidates(installed@.take(i as int), cache.updates@),
                        candidate,
                    );
                }
                if aur_update_due(&candidate) {
                    r.push(candidate);
                }
            },
        }
        i = i + 1;
    }
    assert(installed@.take(installed.len() as int) =~= installed@);
    r
}

proof fn lemma_due_aur_members(s: Seq<AurUpdate>, u: AurUpdate)
    ensures
        due_aur_updates(s).contains(u) <==> s.contains(u) && aur_due_of(u),
    decreases s.len(),
{
    if s.len() > 0 {
        let d = s.drop_last();
        lemma_due_aur_members(d, u);
        assert(d.push(s.last()) =~= s);
        lemma_due_aur_push(d, s.last());
        if s.contains(u) && u != s.last() {
            let i = choose|i: int| 0 <= i < s.len() && s[i] == u;
            assert(d[i] == u);
        }
    } else {
        assert(due_aur_updates(s) =~= s) by {
            reveal(Seq::filter);
        }
    }
}

proof fn lemma_find_installed_member(installed: Seq<Package>, name: Seq<char>)
    ensures
        find_installed(installed, name) matches Some(p) ==> exists|i: int|
            0 <= i < installed.len() && installed[i] == p && p.pkgname@ == name,
    decreases installed.len(),
{
    if installed.len() > 0 {
        let d = installed.drop_last();
        lemma_find_installed_member(d, name);
        if let Some(p) = find_installed(d, name) {
            let i = choose|i: int| 0 <= i < d.len() && d[i] == p && p.pkgname@ == name;
            assert(installed[i] == p);
        } else if installed.last().pkgname@ == name {
            assert(installed[installed.len() - 1] == installed.last());
        }
    }
}

proof fn lemma_find_cached_member(cache: Seq<AurUpdate>, name: Seq<char>)
    ensures
        find_cached(cache, name) matches Some(c) ==> exists|k: int|
            0 <= k < cache.len() && cache[k] == c && c.pkgname@ == name,
    decreases cache.len(),
{
    if cache.len() > 0 {
        let d = cache.drop_last();
        lemma_find_cached_member(d, name);
        if let Some(c) = find_cached(d, name) {
            let k = choose|k: int| 0 <= k < d.len() && d[k] == c && c.pkgname@ == name;
            assert(cache[k] == c);
        } else if cache.last().pkgname@ == name {
            assert(cache[cache.len() - 1] == cache.last());
        }
    }
}

/// `u` is the offline candidate of the `i`-th installed package.
pub open spec fn is_candidate_of(installed: Seq<Package>, cache: Seq<AurUpdate>, i: int, u: AurUpdate) -> bool {
    find_cached(cache, installed[i].pkgname@) matches Some(c) && u == offline_candidate(installed[i], c)
}

proof fn lemma_offline_candidate_member(installed: Seq<Package>, cache: Seq<AurUpdate>, u: AurUpdate)
    ensures
        aur_offline_candidates(installed, cache).contains(u) ==> exists|i: int|
            0 <= i < installed.len() && #[trigger] is_candidate_of(installed, cache, i, u),
    decreases installed.len(),
{
    if installed.len() > 0 {
        let d = installed.drop_last();
        let prev = aur_offline_candidates(d, cache);
        lemma_offline_candidate_member(d, cache, u);
        if aur_offline_candidates(installed, cache).contains(u) {
            let j = choose|j: int|
                0 <= j < aur_offline_candidates(installed, cache).len() && aur_offline_candidates(
                    installed,
                    cache,
                )[j] == u;
            if j < prev.len() {
                assert(prev[j] == u);
                assert(prev.contains(u));
                let i = choose|i: int| 0 <= i < d.len() && #[trigger] is_candidate_of(d, cache, i, u);
                assert(installed[i] == d[i]);
                assert(is_candidate_of(installed, cache, i, u));
            } else {
                let last = installed.len() - 1;
                assert(installed[last] == installed.last());
                assert(find_cached(cache, installed[last].pkgname@) is Some);
                assert(is_candidate_of(installed, cache, last, u));
            }
        }
    }
}

/// An offline AUR check on the records that an online check kept, with the
/// installed packages as they were at that check, reports no update that the
/// online check did not report as due.
pub proof fn lemma_aur_offline_within_online(
    installed: Seq<Package>,
    info: Seq<AurPackageInfo>,
    cache: Seq<AurUpdate>,
    online_due: Seq<AurUpdate>,
)
    requires
        unique_names(installed),
        aur_records(installed, info, cache),
        online_due == due_aur_updates(cache),
    ensures
        forall|u: AurUpdate|
            due_aur_updates(aur_offline_candidates(installed, cache)).contains(u)
                ==> #[trigger] online_due.contains(u),
{
    assert forall|u: AurUpdate|
        due_aur_updates(aur_offline_candidates(installed, cache)).contains(
            u,
        ) implies #[trigger] online_due.contains(u) by {
        let cands = aur_offline_candidates(installed, cache);
        lemma_due_aur_members(cands, u);
        lemma_offline_candidate_member(installed, cache, u);
        let i = choose|i: int|
            0 <= i < installed.len() && #[trigger] is_candidate_of(installed, cache, i, u);
        let c = find_cached(cache, installed[i].pkgname@)->0;
        lemma_find_cached_member(cache, installed[i].pkgname@);
        let k = choose|k: int| 0 <= k < cache.len() && cache[k] == c && c.pkgname@ == installed[i].pkgname@;
        let m = matched(installed, info);
        assert(aur_record(installed, m[k], cache[k]));
        let o = find_installed(installed, m[k].name@)->0;
        lemma_find_installed_member(installed, m[k].name@);
        let j = choose|j: int| 0 <= j < installed.len() && installed[j] == o && o.pkgname@ == m[k].name@;
        assert(installed[j].pkgname@ == installed[i].pkgname@);
        assert(j == i);
        assert(u == c);
        lemma_due_aur_members(cache, c);
    }
}

/// A line of the foreign-package listing names an ignored package: one of
/// the ignored names occurs in it.
pub open spec fn is_ignored_line(line: Seq<char>, ignored: Seq<String>) -> bool {
    exists|k: int| 0 <= k < ignored.len() && contains(line, #[trigger] ignored[k]@)
}

/// The listing lines that name no ignored package.
pub open spec fn kept_lines(lines: Seq<String>, ignored: Seq<String>) -> Seq<String> {
    lines.filter(|l: String| !is_ignored_line(l@, ignored))
}

/// Name, version and release of a line of the foreign-package listing,
/// where the line has that shape.
pub open spec fn foreign_fields(line: Seq<char>) -> Option<(Seq<char>, Seq<char>, Seq<char>)> {
    match split_once(line, " "@) {
        None => None,
        Some(parts) => match ver_and_rel(parts.1) {
            None => None,
            Some(vr) => Some((parts.0, vr.0, vr.1)),
        },
    }
}

/// `r` failed as `parse_pacman_qm` fails on `line`, a line of the wrong
/// shape.
pub open spec fn fails_as_foreign_line<T>(r: Result<T, Error>, line: Seq<char>) -> bool {
    match split_once(line, " "@) {
        None => fails_pacman(r, line),
        Some(parts) => fails_ver_rel(r, parts.1),
    }
}

/// `p` holds the fields `f`.
pub open spec fn package_has_fields(p: Package, f: (Seq<char>, Seq<char>, Seq<char>)) -> bool {
    p.pkgname@ == f.0 && p.pkgver@ == f.1 && p.pkgrel@ == f.2
}

proof fn lemma_kept_push(lines: Seq<String>, ignored: Seq<String>, l: String)
    ensures
        kept_lines(lines.push(l), ignored) == if !is_ignored_line(l@, ignored) {
            kept_lines(lines, ignored).push(l)
        } else {
            kept_lines(lines, ignored)
        },
{
    reveal(Seq::filter);
    assert(lines.push(l).drop_last() =~= lines);
}

fn is_ignored(line: &String, ignored: &Vec<String>) -> (r: bool)
    ensures
        r == is_ignored_line(line@, ignored@),
{
    let v = chars_of(line.as_str());
    let mut k: usize = 0;
    while k < ignored.len()
        invariant
            v@ == line@,
            k <= ignored.len(),
            forall|j: int| 0 <= j < k ==> !contains(line@, #[trigger] ignored@[j]@),
        decreases ignored.len() - k,
    {
        let name = chars_of(ignored[k].as_str());
        if contains_exec(&v, &name) {
            return true;
        }
        k = k + 1;
    }
    false
}

/// The installed foreign packages from the lines of their listing, leaving
/// out the lines that name an ignored package; the first kept line of the
/// wrong shape fails the listing.
pub fn parse_aur_packages(lines: &Vec<String>, ignored: &Vec<String>) -> (r: Result<Vec<Package>, Error>)
    ensures
        ({
            let kept = kept_lines(lines@, ignored@);
            &&& r is Ok <==> forall|i: int| 0 <= i < kept.len() ==> foreign_fields(#[trigger] kept[i]@) is Some
            &&& r matches Ok(v) ==> v.len() == kept.len() && forall|i: int|
                0 <= i < kept.len() ==> package_has_fields(#[trigger] v[i], foreign_fields(kept[i]@)->0)
            &&& r is Err ==> exists|i: int|
                0 <= i < kept.len() && foreign_fields(#[trigger] kept[i]@) is None
                    && fails_as_foreign_line(r, kept[i]@) && forall|j: int|
                    0 <= j < i ==> foreign_fields(#[trigger] kept[j]@) is Some
        }),
{
    let mut v: Vec<Package> = Vec::new();
    let mut i: usize = 0;
    while i < lines.len()
        invariant
            i <= lines.len(),
            v.len() == kept_lines(lines@.take(i as int), ignored@).len(),
            forall|j: int| 0 <= j < v.len() ==> foreign_fields(#[trigger] kept_lines(lines@.take(i as int), ignored@)[j]@) is Some,
            forall|j: int| 0 <= j < v.len() ==> package_has_fields(#[trigger] v[j], foreign_fields(kept_lines(lines@.take(i as int), ignored@)[j]@)->0),
        decreases lines.len() - i,
    {
        let ghost before = kept_lines(lines@.take(i as int), ignored@);
        assert(lines@.take(i + 1) =~= lines@.take(i as int).push(lines[i as int]));
        proof {
            lemma_kept_push(lines@.take(i as int), ignored@, lines[i as int]);
        }
        if !is_ignored(&lines[i], ignored) {
            let ghost after = kept_lines(lines@.take(i + 1), ignored@);
            match parse_pacman_qm(lines[i].as_str()) {
                Ok(p) => {
                    v.push(p);
                    assert forall|j: int| 0 <= j < v.len() implies foreign_fields(#[trigger] after[j]@) is Some && package_has_fields(v[j], foreign_fields(after[j]@)->0) by {
                        if j < before.len() {
                            assert(after[j] == before[j]);
                        }
                    }
                },
                Err(e) => {
                    let r: Result<Vec<Package>, Error> = Err(e);
                    proof {
                        assert(fails_as_foreign_line(r, lines[i as int]@));
                        assert(lines@.take(i + 1).len() <= lines@.len());
                        lemma_kept_prefix(lines@, ignored@, i + 1);
                        let kept = kept_lines(lines@, ignored@);
                        assert(after[before.len() as int] == lines[i as int]);
                        assert(kept[before.len() as int] == lines[i as int]);
                        assert forall|j: int| 0 <= j < before.len() implies foreign_fields(#[trigger] kept[j]@) is Some by {
                            assert(kept[j] == after[j]);
                            assert(after[j] == before[j]);
                        }
                    }
                    return r;
                },
            }
        }
        i = i + 1;
    }
    assert(lines@.take(lines.len() as int) =~= lines@);
    Ok(v)
}

proof fn lemma_kept_prefix(lines: Seq<String>, ignored: Seq<String>, n: int)
    requires
        0 <= n <= lines.len(),
    ensures
        kept_lines(lines.take(n), ignored).len() <= kept_lines(lines, ignored).len(),
        forall|j: int|
            0 <= j < kept_lines(lines.take(n), ignored).len() ==> #[trigger] kept_lines(lines.take(n), ignored)[j]
                == kept_lines(lines, ignored)[j],
    decreases lines.len() - n,
{
    if n < lines.len() {
        lemma_kept_prefix(lines, ignored, n + 1);
        assert(lines.take(n + 1) =~= lines.take(n).push(lines[n]));
        lemma_kept_push(lines.take(n), ignored, lines[n]);
        let short = kept_lines(lines.take(n), ignored);
        let longer = kept_lines(lines.take(n + 1), ignored);
        assert forall|j: int| 0 <= j < short.len() implies #[trigger] short[j] == kept_lines(lines, ignored)[j] by {
            assert(short[j] == longer[j]);
        }
    } else {
        assert(lines.take(n) =~= lines);
    }
}

} // verus!
