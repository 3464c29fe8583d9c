//! The sync repository that a package comes from, and the listing that maps
//! package names to repositories.
use crate::error::Error;
use crate::package::{PacmanUpdate, ParsedUpdate};
use crate::parse::fails_pacman;
use crate::text::{chars_of, split_char, split_on_char};
use vstd::prelude::*;

verus! {

/// Sync repository of a package.
#[derive(Clone, Debug, Eq, PartialEq)]
pub enum SourceRepo {
    Core,
    Extra,
    Multilib,
    CoreTesting,
    ExtraTesting,
    MultilibTesting,
    GnomeUnstable,
    KdeUnstable,
    /// An unofficial repository, by its name.
    Other(String),
}

/// The official repository of that name, if there is one.
pub open spec fn official_repo(name: Seq<char>) -> Option<SourceRepo> {
    if name == "core"@ {
        Some(SourceRepo::Core)
    } else if name == "extra"@ {
        Some(SourceRepo::Extra)
    } else if name == "multilib"@ {
        Some(SourceRepo::Multilib)
    } else if name == "core-testing"@ {
        Some(SourceRepo::CoreTesting)
    } else if name == "extra-testing"@ {
        Some(SourceRepo::ExtraTesting)
    } else if name == "multilib-testing"@ {
        Some(SourceRepo::MultilibTesting)
    } else if name == "gnome-unstable"@ {
        Some(SourceRepo::GnomeUnstable)
    } else if name == "kde-unstable"@ {
        Some(SourceRepo::KdeUnstable)
    } else {
        None
    }
}

/// `repo` is the repository that the name `name` stands for.
pub open spec fn is_repo_named(repo: SourceRepo, name: Seq<char>) -> bool {
    match official_repo(name) {
        Some(official) => repo == official,
        None => repo matches SourceRepo::Other(s) && s@ == name,
    }
}

/// The name of a repository, as the package manager writes it.
pub open spec fn repo_name(repo: SourceRepo) -> Seq<char> {
    match repo {
        SourceRepo::Core => "core"@,
        SourceRepo::Extra => "extra"@,
        SourceRepo::Multilib => "multilib"@,
        SourceRepo::CoreTesting => "core-testing"@,
        SourceRepo::ExtraTesting => "extra-testing"@,
        SourceRepo::MultilibTesting => "multilib-testing"@,
        SourceRepo::GnomeUnstable => "gnome-unstable"@,
        SourceRepo::KdeUnstable => "kde-unstable"@,
        SourceRepo::Other(s) => s@,
    }
}

fn equals_literal(v: &Vec<char>, lit: &str) -> (r: bool)
    ensures
        r == (v@ == lit@),
{
    let l = chars_of(lit);
    if v.len() != l.len() {
        return false;
    }
    let mut i: usize = 0;
    while i < v.len()
        invariant
            l@ == lit@,
            v.len() == l.len(),
            i <= v.len(),
            forall|j: int| 0 <= j < i ==> v@[j] == l@[j],
        decreases v.len() - i,
    {
        if v[i] != l[i] {
            return false;
        }
        i = i + 1;
    }
    assert(v@ =~= l@);
    true
}

impl SourceRepo {
    /// The repository of that name: an official one, or `Other`.
    pub fn from_text(text: &str) -> (r: SourceRepo)
        ensures
            is_repo_named(r, text@),
    {
        let v = chars_of(text);
        if equals_literal(&v, "core") {
            SourceRepo::Core
        } else if equals_literal(&v, "extra") {
            SourceRepo::Extra
        } else if equals_literal(&v, "multilib") {
            SourceRepo::Multilib
        } else if equals_literal(&v, "core-testing") {
            SourceRepo::CoreTesting
        } else if equals_literal(&v, "extra-testing") {
            SourceRepo::ExtraTesting
        } else if equals_literal(&v, "multilib-testing") {
            SourceRepo::MultilibTesting
        } else if equals_literal(&v, "gnome-unstable") {
            SourceRepo::GnomeUnstable
        } else if equals_literal(&v, "kde-unstable") {
            SourceRepo::KdeUnstable
        } else {
            SourceRepo::Other(String::from_str(text))
        }
    }

    /// The repository's name, as the package manager writes it.
    pub fn name(&self) -> (r: String)
        ensures
            r@ == repo_name(*self),
    {
        match self {
            SourceRepo::Core => String::from_str("core"),
            SourceRepo::Extra => String::from_str("extra"),
            SourceRepo::Multilib => String::from_str("multilib"),
            SourceRepo::CoreTesting => String::from_str("core-testing"),
            SourceRepo::ExtraTesting => String::from_str("extra-testing"),
            SourceRepo::MultilibTesting => String::from_str("multilib-testing"),
            SourceRepo::GnomeUnstable => String::from_str("gnome-unstable"),
            SourceRepo::KdeUnstable => String::from_str("kde-unstable"),
            SourceRepo::Other(s) => s.clone(),
        }
    }

    /// A copy of this value.
    pub fn duplicate(&self) -> (r: SourceRepo)
        ensures
            r == *self,
    {
        match self {
            SourceRepo::Core => SourceRepo::Core,
            SourceRepo::Extra => SourceRepo::Extra,
            SourceRepo::Multilib => SourceRepo::Multilib,
            SourceRepo::CoreTesting => SourceRepo::CoreTesting,
            SourceRepo::ExtraTesting => SourceRepo::ExtraTesting,
            SourceRepo::MultilibTesting => SourceRepo::MultilibTesting,
            SourceRepo::GnomeUnstable => SourceRepo::GnomeUnstable,
            SourceRepo::KdeUnstable => SourceRepo::KdeUnstable,
            SourceRepo::Other(s) => SourceRepo::Other(s.clone()),
        }
    }
}

/// Package names and the repositories they come from, in listing order.
/// Where a name is listed twice, the later entry counts.
#[derive(Clone, Debug, Default)]
pub struct SourcesList {
    pub entries: Vec<(String, SourceRepo)>,
}

/// The repository of `name` in `entries`: that of its last entry.
pub open spec fn lookup(entries: Seq<(String, SourceRepo)>, name: Seq<char>) -> Option<SourceRepo>
    decreases entries.len(),
{
    if entries.len() == 0 {
        None
    } else if entries.last().0@ == name {
        Some(entries.last().1)
    } else {
        lookup(entries.drop_last(), name)
    }
}

impl SourcesList {
    /// The list of the given entries.
    pub fn from_entries(entries: Vec<(String, SourceRepo)>) -> (r: SourcesList)
        ensures
            r.entries == entries,
    {
        SourcesList { entries }
    }

    /// The repository of a package, if the list names it.
    pub fn get(&self, name: &String) -> (r: Option<SourceRepo>)
        ensures
            r == lookup(self.entries@, name@),
    {
        let mut found: Option<SourceRepo> = None;
        let mut i: usize = 0;
        while i < self.entries.len()
            invariant
                i <= self.entries.len(),
                found == lookup(self.entries@.take(i as int), name@),
            decreases self.entries.len() - i,
        {
            assert(self.entries@.take(i + 1).drop_last() =~= self.entries@.take(i as int));
            if self.entries[i].0 == *name {
                found = Some(self.entries[i].1.duplicate());
            }
            i = i + 1;
        }
        assert(self.entries@.take(self.entries.len() as int) =~= self.entries@);
        found
    }
}

/// Parses a line of the sync-repository listing into package name and
/// repository. Example input: `core pacman 7.0.0.r6.gc685ae6-1 [installed]`.
pub fn parse_pacman_sl(line: &str) -> (r: Result<(String, SourceRepo), Error>)
    ensures
        ({
            let t = split_char(line@, ' ');
            if t.len() < 2 {
                fails_pacman(r, line@)
            } else {
                r matches Ok(p) && p.0@ == t[1] && is_repo_named(p.1, t[0])
            }
        }),
{
    let v = chars_of(line);
    let parts = split_on_char(&v, ' ');
    assert(parts.deep_view().len() == parts.len());
    if parts.len() < 2 {
        return Err(Error::ParseErrorPacman(String::from_str(line)));
    }
    assert(parts[0]@ == parts.deep_view()[0]);
    assert(parts[1]@ == parts.deep_view()[1]);
    Ok((parts[1].clone(), SourceRepo::from_text(parts[0].as_str())))
}

/// Parses the lines of the sync-repository listing; the first line of the
/// wrong shape fails the whole listing.
pub fn parse_sources_list(lines: &Vec<String>) -> (r: Result<SourcesList, Error>)
    ensures
        r is Ok <==> forall|i: int| 0 <= i < lines.len() ==> split_char(lines[i]@, ' ').len() >= 2,
        r matches Ok(list) ==> list.entries.len() == lines.len() && forall|i: int|
            0 <= i < lines.len() ==> {
                let t = split_char(#[trigger] lines[i]@, ' ');
                list.entries[i].0@ == t[1] && is_repo_named(list.entries[i].1, t[0])
            },
        r is Err ==> exists|i: int|
            0 <= i < lines.len() && fails_pacman(r, #[trigger] lines[i]@) && forall|j: int|
                0 <= j < i ==> split_char(#[trigger] lines[j]@, ' ').len() >= 2,
{
    let mut entries: Vec<(String, SourceRepo)> = Vec::new();
    let mut i: usize = 0;
    while i < lines.len()
        invariant
            i <= lines.len(),
            entries.len() == i,
            forall|j: int| 0 <= j < i ==> split_char(#[trigger] lines[j]@, ' ').len() >= 2,
            forall|j: int|
                0 <= j < i ==> {
                    let t = split_char(#[trigger] lines[j]@, ' ');
                    entries[j].0@ == t[1] && is_repo_named(entries[j].1, t[0])
                },
        decreases lines.len() - i,
    {
        match parse_pacman_sl(lines[i].as_str()) {
            Ok(entry) => {
                entries.push(entry);
            },
            Err(e) => {
                return Err(e);
            },
        }
        i = i + 1;
    }
    Ok(SourcesList { entries })
}

/// Annotates each pending update with the repository of its package, where
/// the list names one.
pub fn add_sources_to_updates(updates: Vec<ParsedUpdate>, sources_list: &SourcesList) -> (r: Vec<
    PacmanUpdate,
>)
    ensures
        r.len() == updates.len(),
        forall|i: int|
            0 <= i < r.len() ==> {
                &&& (#[trigger] r[i]).pkgname == updates[i].pkgname
                &&& r[i].pkgver_cur == updates[i].pkgver_cur
                &&& r[i].pkgrel_cur == updates[i].pkgrel_cur
                &&& r[i].pkgver_new == updates[i].pkgver_new
                &&& r[i].pkgrel_new == updates[i].pkgrel_new
                &&& r[i].source_repo == lookup(sources_list.entries@, updates[i].pkgname@)
            },
{
    let mut r: Vec<PacmanUpdate> = Vec::new();
    let mut i: usize = 0;
    while i < updates.len()
        invariant
            i <= updates.len(),
            r.len() == i,
            forall|j: int|
                0 <= j < i ==> {
                    &&& (#[trigger] r[j]).pkgname == updates[j].pkgname
                    &&& r[j].pkgver_cur == updates[j].pkgver_cur
                    &&& r[j].pkgrel_cur == updates[j].pkgrel_cur
                    &&& r[j].pkgver_new == updates[j].pkgver_new
                    &&& r[j].pkgrel_new == updates[j].pkgrel_new
                    &&& r[j].source_repo == lookup(sources_list.entries@, updates[j].pkgname@)
                },
        decreases updates.len() - i,
    {
        let u = &updates[i];
        r.push(
            PacmanUpdate {
                source_repo: sources_list.get(&u.pkgname),
                pkgname: u.pkgname.clone(),
                pkgver_cur: u.pkgver_cur.clone(),
                pkgrel_cur: u.pkgrel_cur.clone(),
                pkgver_new: u.pkgver_new.clone(),
                pkgrel_new: u.pkgrel_new.clone(),
            },
        );
        i = i + 1;
    }
    r
}

} // verus!
