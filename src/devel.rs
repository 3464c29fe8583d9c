//! The devel checker's decisions: which packages follow a source
//! repository's head, which git sources their build recipes name, and
//! which of them are behind.
use crate::aur::unique_names;
use crate::due::{devel_due_of, devel_update_due};
use crate::error::Error;
use crate::package::{DevelUpdate, Package};
use crate::parse::{git_source, parse_url};
use crate::text::{chars_of, string_of};
use srcinfo::Error as SrcinfoError;
use vstd::prelude::*;

verus! {

broadcast use vstd::seq_lib::group_seq_properties;

/// Package names that end with this suffix (in lower case) are devel
/// packages.
pub const DEVEL_SUFFIX: &'static str = "-git";

/// The number of characters of a commit hash that identify a head.
pub const SHORT_HASH_LEN: usize = 7;

/// The records of the last successful online devel check, for offline
/// checks: one for each git source of each devel package, due or not.
#[derive(Clone, Debug, Default)]
pub struct DevelUpdatesCache {
    pub updates: Vec<DevelUpdate>,
}

/// A query for the head of a git source: the remote, and the branch where
/// one is named.
#[derive(Clone, Debug, Eq, PartialEq)]
pub struct HeadQuery {
    pub remote: String,
    pub branch: Option<String>,
}

/// The view of an optional string.
pub open spec fn opt_string_view(o: Option<String>) -> Option<Seq<char>> {
    match o {
        Some(s) => Some(s@),
        None => None,
    }
}

/// `s` in lower case, as `str::to_lowercase` gives it.
pub uninterp spec fn lowercase_of(s: Seq<char>) -> Seq<char>;

/// Relies on `str::to_lowercase`: the result depends on the characters
/// alone.
#[verifier::external_body]
fn to_lowercase(s: &str) -> (r: String)
    ensures
        r@ == lowercase_of(s@),
{
    s.to_lowercase()
}

/// The `source` entries of a build recipe's metadata, one list for each
/// architecture, as the `srcinfo` crate parses them; none where it does not
/// parse.
pub uninterp spec fn srcinfo_sources(raw: Seq<char>) -> Option<Seq<Seq<Seq<char>>>>;

/// Relies on `srcinfo::Srcinfo::from_str`: parses a `.SRCINFO` text; the
/// `vec` of each entry of `base.source` is kept.
#[verifier::external_body]
fn parse_srcinfo_sources(raw: &str) -> (r: Result<Vec<Vec<String>>, SrcinfoError>)
    ensures
        match srcinfo_sources(raw@) {
            None => r is Err,
            Some(s) => r matches Ok(v) && v.deep_view() == s,
        },
{
    <srcinfo::Srcinfo as std::str::FromStr>::from_str(raw).map(|info| info.base.source.into_iter().map(|a| a.vec).collect())
}

/// Whether a name, already in lower case, is that of a devel package.
pub open spec fn is_devel_name_spec(folded: Seq<char>) -> bool {
    folded.len() >= DEVEL_SUFFIX@.len() && folded.skip(folded.len() - DEVEL_SUFFIX@.len())
        == DEVEL_SUFFIX@
}

/// Whether a package is a devel package.
pub open spec fn is_devel_package(p: Package) -> bool {
    is_devel_name_spec(lowercase_of(p.pkgname@))
}

/// The devel packages among `s`.
pub open spec fn devel_filter(s: Seq<Package>) -> Seq<Package> {
    s.filter(|p: Package| is_devel_package(p))
}

/// Whether a name, already in lower case, ends with the devel suffix.
pub fn is_devel_name(folded: &str) -> (r: bool)
    ensures
        r == is_devel_name_spec(folded@),
{
    let v = chars_of(folded);
    let suffix = chars_of(DEVEL_SUFFIX);
    if v.len() < suffix.len() {
        return false;
    }
    let from = v.len() - suffix.len();
    let mut i: usize = 0;
    while i < suffix.len()
        invariant
            v@ == folded@,
            suffix@ == DEVEL_SUFFIX@,
            from + suffix.len() == v.len(),
            i <= suffix.len(),
            forall|j: int| 0 <= j < i ==> v@[from + j] == suffix@[j],
        decreases suffix.len() - i,
    {
        if v[from + i] != suffix[i] {
            assert(v@.skip(from as int)[i as int] != suffix@[i as int]);
            return false;
        }
        i = i + 1;
    }
    assert(v@.skip(from as int) =~= suffix@);
    true
}

proof fn lemma_devel_filter_push(s: Seq<Package>, p: Package)
    ensures
        devel_filter(s.push(p)) == if is_devel_package(p) {
            devel_filter(s).push(p)
        } else {
            devel_filter(s)
        },
{
    reveal(Seq::filter);
    assert(s.push(p).drop_last() =~= s);
}

impl Package {
    /// A copy of this value.
    pub fn duplicate(&self) -> (r: Package)
        ensures
            r == *self,
    {
        Package {
            pkgname: self.pkgname.clone(),
            pkgver: self.pkgver.clone(),
            pkgrel: self.pkgrel.clone(),
        }
    }
}

impl DevelUpdate {
    /// A copy of this value.
    pub fn duplicate(&self) -> (r: DevelUpdate)
        ensures
            r == *self,
    {
        DevelUpdate {
            pkgname: self.pkgname.clone(),
            pkgver_cur: self.pkgver_cur.clone(),
            pkgrel_cur: self.pkgrel_cur.clone(),
            ref_id_new: self.ref_id_new.clone(),
        }
    }
}

/// The devel packages among the installed foreign packages, in order.
pub fn devel_packages(foreign: &Vec<Package>) -> (r: Vec<Package>)
    ensures
        r@ == devel_filter(foreign@),
{
    let mut r: Vec<Package> = Vec::new();
    let mut i: usize = 0;
    while i < foreign.len()
        invariant
            i <= foreign.len(),
            r@ == devel_filter(foreign@.take(i as int)),
        decreases foreign.len() - i,
    {
        assert(foreign@.take(i + 1) =~= foreign@.take(i as int).push(foreign[i as int]));
        proof {
            lemma_devel_filter_push(foreign@.take(i as int), foreign[i as int]);
        }
        let folded = to_lowercase(foreign[i].pkgname.as_str());
        if is_devel_name(folded.as_str()) {
            r.push(foreign[i].duplicate());
        }
        i = i + 1;
    }
    assert(foreign@.take(foreign.len() as int) =~= foreign@);
    r
}

/// The head queries of a list of source entries: one for each git entry
/// that is not pinned, in order.
pub open spec fn git_queries(entries: Seq<Seq<char>>) -> Seq<(Seq<char>, Option<Seq<char>>)>
    decreases entries.len(),
{
    if entries.len() == 0 {
        Seq::empty()
    } else {
        let prev = git_queries(entries.drop_last());
        match git_source(entries.last()) {
            Some(g) => prev.push((g.0, g.2)),
            None => prev,
        }
    }
}

/// The head queries of the source lists of all architectures, in order.
pub open spec fn git_queries_all(lists: Seq<Seq<Seq<char>>>) -> Seq<(Seq<char>, Option<Seq<char>>)>
    decreases lists.len(),
{
    if lists.len() == 0 {
        Seq::empty()
    } else {
        git_queries_all(lists.drop_last()) + git_queries(lists.last())
    }
}

/// The view of a list of head queries.
pub open spec fn queries_view(q: Seq<HeadQuery>) -> Seq<(Seq<char>, Option<Seq<char>>)> {
    q.map_values(|h: HeadQuery| (h.remote@, opt_string_view(h.branch)))
}

/// The head queries of the source lists of a build recipe.
pub fn git_queries_of(sources: &Vec<Vec<String>>) -> (r: Vec<HeadQuery>)
    ensures
        queries_view(r@) == git_queries_all(sources.deep_view()),
{
    let mut r: Vec<HeadQuery> = Vec::new();
    let mut i: usize = 0;
    while i < sources.len()
        invariant
            i <= sources.len(),
            queries_view(r@) == git_queries_all(sources.deep_view().take(i as int)),
        decreases sources.len() - i,
    {
        let ghost before = r@;
        let list = &sources[i];
        assert(sources.deep_view().take(i + 1).drop_last() =~= sources.deep_view().take(i as int));
        assert(sources.deep_view().take(i + 1).last() == list.deep_view());
        let mut j: usize = 0;
        while j < list.len()
            invariant
                i < sources.len(),
                list == sources[i as int],
                j <= list.len(),
                r@.take(before.len() as int) == before,
                before.len() <= r@.len(),
                queries_view(r@) == queries_view(before) + git_queries(list.deep_view().take(j as int)),
            decreases list.len() - j,
        {
            let ghost mid = r@;
            assert(list.deep_view().take(j + 1).drop_last() =~= list.deep_view().take(j as int));
            assert(list.deep_view().take(j + 1).last() == list[j as int]@);
            match parse_url(list[j].as_str()) {
                Some(url) => {
                    let branch = match url.branch {
                        Some(b) => Some(String::from_str(b)),
                        None => None,
                    };
                    r.push(HeadQuery { remote: url.remote, branch });
                    assert(r@.take(before.len() as int) =~= before);
                    assert(queries_view(r@) =~= queries_view(mid).push(
                        (r@.last().remote@, opt_string_view(r@.last().branch)),
                    ));
                },
                None => {},
            }
            j = j + 1;
        }
        assert(list.deep_view().take(list.len() as int) =~= list.deep_view());
        i = i + 1;
    }
    assert(sources.deep_view().take(sources.len() as int) =~= sources.deep_view());
    r
}

/// The head queries of a build recipe's metadata text; an error where the
/// text does not parse.
pub fn devel_sources(raw: &str) -> (r: Result<Vec<HeadQuery>, Error>)
    ensures
        match srcinfo_sources(raw@) {
            None => r matches Err(Error::ParseErrorSrcinfo(_)),
            Some(s) => r matches Ok(q) && queries_view(q@) == git_queries_all(s),
        },
{
    match parse_srcinfo_sources(raw) {
        Ok(sources) => Ok(git_queries_of(&sources)),
        Err(e) => Err(Error::ParseErrorSrcinfo(e)),
    }
}

/// The short hash of a head, from what the revision control tool printed:
/// its first characters, or an error where it printed fewer.
pub fn head_identifier(output: &str) -> (r: Result<String, Error>)
    ensures
        output@.len() >= SHORT_HASH_LEN ==> (r matches Ok(id) && id@ == output@.take(
            SHORT_HASH_LEN as int,
        )),
        output@.len() < SHORT_HASH_LEN ==> r matches Err(Error::HeadIdentifierTooShort),
{
    let v = chars_of(output);
    if v.len() < SHORT_HASH_LEN {
        return Err(Error::HeadIdentifierTooShort);
    }
    let id = string_of(&v, 0, SHORT_HASH_LEN);
    assert(v@.subrange(0, SHORT_HASH_LEN as int) =~= output@.take(SHORT_HASH_LEN as int));
    Ok(id)
}

/// The record of a devel package against the short hash of a head.
pub fn devel_update(package: &Package, ref_id_new: String) -> (r: DevelUpdate)
    ensures
        r.pkgname == package.pkgname,
        r.pkgver_cur == package.pkgver,
        r.pkgrel_cur == package.pkgrel,
        r.ref_id_new == ref_id_new,
{
    DevelUpdate {
        pkgname: package.pkgname.clone(),
        pkgver_cur: package.pkgver.clone(),
        pkgrel_cur: package.pkgrel.clone(),
        ref_id_new,
    }
}

/// The updates among `s` that are due.
pub open spec fn due_devel_updates(s: Seq<DevelUpdate>) -> Seq<DevelUpdate> {
    s.filter(|u: DevelUpdate| devel_due_of(u))
}

proof fn lemma_due_devel_push(s: Seq<DevelUpdate>, u: DevelUpdate)
    ensures
        due_devel_updates(s.push(u)) == if devel_due_of(u) {
            due_devel_updates(s).push(u)
        } else {
            due_devel_updates(s)
        },
{
    reveal(Seq::filter);
    assert(s.push(u).drop_last() =~= s);
}

/// The updates among `records` that are due, in order.
pub fn due_devel(records: &Vec<DevelUpdate>) -> (r: Vec<DevelUpdate>)
    ensures
        r@ == due_devel_updates(records@),
{
    let mut r: Vec<DevelUpdate> = Vec::new();
    let mut i: usize = 0;
    while i < records.len()
        invariant
            i <= records.len(),
            r@ == due_devel_updates(records@.take(i as int)),
        decreases records.len() - i,
    {
        assert(records@.take(i + 1) =~= records@.take(i as int).push(records[i as int]));
        proof {
            lemma_due_devel_push(records@.take(i as int), records[i as int]);
        }
        if devel_update_due(&records[i]) {
            r.push(records[i].duplicate());
        }
        i = i + 1;
    }
    assert(records@.take(records.len() as int) =~= records@);
    r
}

/// The online devel check's decisions, from the records of all git sources
/// of all devel packages: the due ones, and all of them for offline checks.
pub fn devel_updates_online(records: Vec<DevelUpdate>) -> (r: (Vec<DevelUpdate>, DevelUpdatesCache))
    ensures
        r.1.updates == records,
        r.0@ == due_devel_updates(records@),
{
    let due = due_devel(&records);
    (due, DevelUpdatesCache { updates: records })
}

/// An installed devel package against a cached record.
pub open spec fn devel_candidate(p: Package, c: DevelUpdate) -> DevelUpdate {
    DevelUpdate { pkgname: p.pkgname, pkgver_cur: p.pkgver, pkgrel_cur: p.pkgrel, ref_id_new: c.ref_id_new }
}

/// An installed devel package against each cached record of its name, in
/// the order of the cache.
pub open spec fn devel_candidates_for(p: Package, cache: Seq<DevelUpdate>) -> Seq<DevelUpdate>
    decreases cache.len(),
{
    if cache.len() == 0 {
        Seq::empty()
    } else {
        let prev = devel_candidates_for(p, cache.drop_last());
        if cache.last().pkgname@ == p.pkgname@ {
            prev.push(devel_candidate(p, cache.last()))
        } else {
            prev
        }
    }
}

/// Each installed devel package against each cached record of its name.
pub open spec fn devel_offline_candidates(installed: Seq<Package>, cache: Seq<DevelUpdate>) -> Seq<DevelUpdate>
    decreases installed.len(),
{
    if installed.len() == 0 {
        Seq::empty()
    } else {
        devel_offline_candidates(installed.drop_last(), cache) + devel_candidates_for(
            installed.last(),
            cache,
        )
    }
}

/// The offline devel check's decisions: each installed devel package
/// against each cached record of its name, where due.
pub fn devel_updates_offline(installed: &Vec<Package>, cache: &DevelUpdatesCache) -> (r: Vec<DevelUpdate>)
    ensures
        r@ == due_devel_updates(devel_offline_candidates(installed@, cache.updates@)),
{
    let mut all: Vec<DevelUpdate> = Vec::new();
    let mut i: usize = 0;
    while i < installed.len()
        invariant
            i <= installed.len(),
            all@ == devel_offline_candidates(installed@.take(i as int), cache.updates@),
        decreases installed.len() - i,
    {
        let p = &installed[i];
        let ghost before = all@;
        assert(installed@.take(i + 1).drop_last() =~= installed@.take(i as int));
        let mut j: usize = 0;
        while j < cache.updates.len()
            invariant
                i < installed.len(),
                p == installed[i as int],
                j <= cache.updates.len(),
                all@ == before + devel_candidates_for(*p, cache.updates@.take(j as int)),
            decreases cache.updates.len() - j,
        {
            let c = &cache.updates[j];
            assert(cache.updates@.take(j + 1).drop_last() =~= cache.updates@.take(j as int));
            if c.pkgname == p.pkgname {
                let ghost mid = all@;
                all.push(
                    DevelUpdate {
                        pkgname: p.pkgname.clone(),
                        pkgver_cur: p.pkgver.clone(),
                        pkgrel_cur: p.pkgrel.clone(),
                        ref_id_new: c.ref_id_new.clone(),
                    },
                );
                assert(all@ =~= mid.push(devel_candidate(*p, *c)));
                assert(all@ =~= before + devel_candidates_for(*p, cache.updates@.take(j + 1)));
            }
            j = j + 1;
        }
        assert(cache.updates@.take(cache.updates.len() as int) =~= cache.updates@);
        i = i + 1;
    }
    assert(installed@.take(installed.len() as int) =~= installed@);
    due_devel(&all)
}

proof fn lemma_due_devel_members(s: Seq<DevelUpdate>, u: DevelUpdate)
    ensures
        due_devel_updates(s).contains(u) <==> s.contains(u) && devel_due_of(u),
    decreases s.len(),
{
    if s.len() > 0 {
        let d = s.drop_last();
        lemma_due_devel_members(d, u);
        assert(d.push(s.last()) =~= s);
        lemma_due_devel_push(d, s.last());
        if s.contains(u) && u != s.last() {
            let i = choose|i: int| 0 <= i < s.len() && s[i] == u;
            assert(d[i] == u);
        }
    } else {
        assert(due_devel_updates(s) =~= s) by {
            reveal(Seq::filter);
        }
    }
}

/// `u` is the candidate of installed package `p` against the `k`-th cached record.
pub open spec fn is_devel_candidate_of(p: Package, cache: Seq<DevelUpdate>, k: int, u: DevelUpdate) -> bool {
    0 <= k < cache.len() && cache[k].pkgname@ == p.pkgname@ && u == devel_candidate(p, cache[k])
}

proof fn lemma_candidates_for_member(p: Package, cache: Seq<DevelUpdate>, u: DevelUpdate)
    ensures
        devel_candidates_for(p, cache).contains(u) ==> exists|k: int| #[trigger] is_devel_candidate_of(p, cache, k, u),
    decreases cache.len(),
{
    if cache.len() > 0 {
        let d = cache.drop_last();
        let prev = devel_candidates_for(p, d);
        lemma_candidates_for_member(p, d, u);
        let all = devel_candidates_for(p, cache);
        if all.contains(u) {
            let j = choose|j: int| 0 <= j < all.len() && all[j] == u;
            if j < prev.len() {
                assert(prev[j] == u);
                assert(prev.contains(u));
                let k = choose|k: int| #[trigger] is_devel_candidate_of(p, d, k, u);
                assert(cache[k] == d[k]);
                assert(is_devel_candidate_of(p, cache, k, u));
            } else {
                assert(is_devel_candidate_of(p, cache, cache.len() - 1, u));
            }
        }
    }
}

proof fn lemma_offline_candidates_member(installed: Seq<Package>, cache: Seq<DevelUpdate>, u: DevelUpdate)
    ensures
        devel_offline_candidates(installed, cache).contains(u) ==> exists|i: int, k: int|
            0 <= i < installed.len() && #[trigger] is_devel_candidate_of(installed[i], cache, k, u),
    decreases installed.len(),
{
    if installed.len() > 0 {
        let d = installed.drop_last();
        let prev = devel_offline_candidates(d, cache);
        let tail = devel_candidates_for(installed.last(), cache);
        lemma_offline_candidates_member(d, cache, u);
        lemma_candidates_for_member(installed.last(), cache, u);
        let all = devel_offline_candidates(installed, cache);
        if all.contains(u) {
            let j = choose|j: int| 0 <= j < all.len() && all[j] == u;
            if j < prev.len() {
                assert(prev[j] == u);
                assert(prev.contains(u));
                let (i, k) = choose|i: int, k: int|
                    0 <= i < d.len() && #[trigger] is_devel_candidate_of(d[i], cache, k, u);
                assert(installed[i] == d[i]);
            } else {
                assert(tail[j - prev.len()] == u);
                assert(tail.contains(u));
                let k = choose|k: int| #[trigger] is_devel_candidate_of(installed.last(), cache, k, u);
                assert(installed[installed.len() - 1] == installed.last());
                assert(is_devel_candidate_of(installed[installed.len() - 1], cache, k, u));
            }
        }
    }
}

/// `r` is the record of installed package `p`: same name, version and release.
pub open spec fn record_of(r: DevelUpdate, p: Package) -> bool {
    r.pkgname == p.pkgname && r.pkgver_cur == p.pkgver && r.pkgrel_cur == p.pkgrel
}

/// An offline devel check on the records that an online check kept, with
/// the installed devel packages as they were at that check, reports no
/// update that the online check did not report as due.
pub proof fn lemma_devel_offline_within_online(
    installed: Seq<Package>,
    records: Seq<DevelUpdate>,
    online_due: Seq<DevelUpdate>,
)
    requires
        unique_names(installed),
        forall|k: int|
            0 <= k < records.len() ==> exists|j: int|
                0 <= j < installed.len() && record_of(#[trigger] records[k], installed[j]),
        online_due == due_devel_updates(records),
    ensures
        forall|u: DevelUpdate|
            due_devel_updates(devel_offline_candidates(installed, records)).contains(u)
                ==> #[trigger] online_due.contains(u),
{
    assert forall|u: DevelUpdate|
        due_devel_updates(devel_offline_candidates(installed, records)).contains(
            u,
        ) implies #[trigger] online_due.contains(u) by {
        let cands = devel_offline_candidates(installed, records);
        lemma_due_devel_members(cands, u);
        lemma_offline_candidates_member(installed, records, u);
        let (i, k) = choose|i: int, k: int|
            0 <= i < installed.len() && #[trigger] is_devel_candidate_of(installed[i], records, k, u);
        let j = choose|j: int| 0 <= j < installed.len() && record_of(records[k], installed[j]);
        assert(installed[j].pkgname@ == installed[i].pkgname@);
        assert(j == i);
        assert(u == records[k]);
        lemma_due_devel_members(records, u);
    }
}

} // verus!
