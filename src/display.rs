//! What a status indicator shows of the updates: a line for each package,
//! with the page where it can be read about, and the settings that shape it.
use crate::package::{AurUpdate, DevelUpdate, PacmanUpdate};
use crate::source_repo::{repo_name, SourceRepo};
use crate::state::UpdateType;
use crate::text::split_once;
use vstd::prelude::*;

verus! {

/// Settings of the polling loop and of what is shown.
#[derive(Debug, PartialEq)]
pub struct Config {
    /// Kinds of update left out of the count; they are still checked.
    pub exclude_from_counter: Vec<UpdateType>,
    /// Seconds between two ticks.
    pub interval_secs: u64,
    /// Seconds that a check may run before it counts as failed.
    pub timeout_secs: u64,
    /// Ticks from one online pass to the next.
    pub online_check_period: usize,
    /// Page addresses for unofficial repositories, by repository name; a
    /// `{pkgname}` in an address stands for the package's name.
    pub other_repo_urls: Vec<(String, String)>,
}

impl Default for Config {
    fn default() -> (r: Config)
        ensures
            r.exclude_from_counter@.len() == 0,
            r.interval_secs == 6,
            r.timeout_secs == 120,
            r.online_check_period == 600,
            r.other_repo_urls@.len() == 0,
    {
        Config {
            exclude_from_counter: Vec::new(),
            interval_secs: 6,
            timeout_secs: 120,
            online_check_period: 600,
            other_repo_urls: Vec::new(),
        }
    }
}

/// Whether a list of updates is shown folded or unfolded.
#[derive(Clone, Copy, Debug, Default, PartialEq, Eq, Structural)]
pub enum Collapsed {
    #[default]
    Collapsed,
    Expanded,
}

impl Collapsed {
    /// The other state.
    pub fn toggle(&self) -> (r: Collapsed)
        ensures
            r != *self,
    {
        match self {
            Collapsed::Collapsed => Collapsed::Expanded,
            Collapsed::Expanded => Collapsed::Collapsed,
        }
    }
}

/// The lists of updates that can be folded.
#[derive(Clone, Copy, Debug, PartialEq, Eq, Structural)]
pub enum CollapsibleType {
    Aur,
    Pacman,
    Devel,
}

/// The icons of the status indicator.
#[derive(Clone, Copy, Debug, PartialEq, Eq, Structural)]
pub enum AppIcon {
    Loading,
    Error,
    UpdatesAvailable,
    NewsAvailable,
    UpToDate,
}

impl AppIcon {
    /// The name of the icon in the icon theme.
    pub fn to_str(&self) -> (r: &'static str)
        ensures
            r@ == match *self {
                AppIcon::UpdatesAvailable => "software-update-available-symbolic"@,
                AppIcon::UpToDate => "emblem-default-symbolic"@,
                AppIcon::Loading => "emblem-synchronizing-symbolic"@,
                AppIcon::Error => "dialog-error-symbolic"@,
                AppIcon::NewsAvailable => "mail-message-new-symbolic"@,
            },
    {
        match self {
            AppIcon::UpdatesAvailable => "software-update-available-symbolic",
            AppIcon::UpToDate => "emblem-default-symbolic",
            AppIcon::Loading => "emblem-synchronizing-symbolic",
            AppIcon::Error => "dialog-error-symbolic",
            AppIcon::NewsAvailable => "mail-message-new-symbolic",
        }
    }
}

/// `s` with every occurrence of `pat`, from the left and not overlapping,
/// replaced by `rep`.
pub open spec fn replace_all(s: Seq<char>, pat: Seq<char>, rep: Seq<char>) -> Seq<char>
    decreases s.len(),
{
    if pat.len() == 0 {
        s
    } else {
        match split_once(s, pat) {
            None => s,
            Some(parts) => if parts.1.len() < s.len() {
                parts.0 + rep + replace_all(parts.1, pat, rep)
            } else {
                s
            },
        }
    }
}

/// Relies on `str::replace`: every match of `from`, from the left and not
/// overlapping, replaced by `to`.
#[verifier::external_body]
fn replace(s: &str, from: &str, to: &str) -> (r: String)
    requires
        from@.len() > 0,
    ensures
        r@ == replace_all(s@, from@, to@),
{
    s.replace(from, to)
}

/// A package's line in a list of updates.
#[derive(Debug, PartialEq, Eq)]
pub struct DisplayPackage {
    pub display_ver_new: String,
    pub display_ver_old: String,
    pub url: Option<String>,
    pub pkgname: String,
    pub source_repo: Option<String>,
}

/// `a-b`.
pub open spec fn joined(a: Seq<char>, b: Seq<char>) -> Seq<char> {
    a + "-"@ + b
}

fn join_dash(a: &String, b: &String) -> (r: String)
    ensures
        r@ == joined(a@, b@),
{
    let mut r = a.clone();
    r.append("-");
    r.append(b.as_str());
    r
}

/// The AUR page of a package.
pub open spec fn aur_url_spec(pkgname: Seq<char>) -> Seq<char> {
    "https://aur.archlinux.org/packages/"@ + pkgname
}

/// The page of a package in an official repository.
pub open spec fn official_url_spec(repo: Seq<char>, pkgname: Seq<char>) -> Seq<char> {
    "https://archlinux.org/packages/"@ + repo + "/x86_64/"@ + pkgname + "/"@
}

/// The address given for an unofficial repository: that of its first entry.
pub open spec fn find_repo_url(urls: Seq<(String, String)>, name: Seq<char>) -> Option<String>
    decreases urls.len(),
{
    if urls.len() == 0 {
        None
    } else if find_repo_url(urls.drop_last(), name) is Some {
        find_repo_url(urls.drop_last(), name)
    } else if urls.last().0@ == name {
        Some(urls.last().1)
    } else {
        None
    }
}

/// The page of a package from a sync repository: the official page, or,
/// for an unofficial repository, the address given for it with the
/// package's name in place of `{pkgname}`.
pub open spec fn pacman_url_spec(pkgname: Seq<char>, repo: SourceRepo, urls: Seq<(String, String)>) -> Option<Seq<char>> {
    match repo {
        SourceRepo::Other(name) => match find_repo_url(urls, name@) {
            Some(url) => Some(replace_all(url@, "{pkgname}"@, pkgname)),
            None => None,
        },
        _ => Some(official_url_spec(repo_name(repo), pkgname)),
    }
}

/// The AUR page of a package.
pub fn aur_url(pkgname: &str) -> (r: String)
    ensures
        r@ == aur_url_spec(pkgname@),
{
    let mut r = String::from_str("https://aur.archlinux.org/packages/");
    r.append(pkgname);
    r
}

/// The page of a package from a sync repository, where there is one.
pub fn pacman_url(pkgname: &str, source_repo: SourceRepo, other_repo_urls: &Vec<(String, String)>) -> (r: Option<String>)
    ensures
        match pacman_url_spec(pkgname@, source_repo, other_repo_urls@) {
            Some(u) => r matches Some(s) && s@ == u,
            None => r is None,
        },
{
    if let SourceRepo::Other(other_repo_name) = &source_repo {
        let mut found: Option<usize> = None;
        let mut i: usize = 0;
        while i < other_repo_urls.len()
            invariant
                i <= other_repo_urls.len(),
                match find_repo_url(other_repo_urls@.take(i as int), other_repo_name@) {
                    None => found is None,
                    Some(u) => found matches Some(k) && k < i && other_repo_urls@[k as int].1 == u,
                },
            decreases other_repo_urls.len() - i,
        {
            assert(other_repo_urls@.take(i + 1).drop_last() =~= other_repo_urls@.take(i as int));
            if found.is_none() && other_repo_urls[i].0 == *other_repo_name {
                found = Some(i);
            }
            i = i + 1;
        }
        assert(other_repo_urls@.take(other_repo_urls.len() as int) =~= other_repo_urls@);
        let marker = "{pkgname}";
        proof {
            reveal_strlit("{pkgname}");
        }
        return match found {
            Some(k) => Some(replace(other_repo_urls[k].1.as_str(), marker, pkgname)),
            None => None,
        };
    }
    let mut r = String::from_str("https://archlinux.org/packages/");
    let repo = source_repo.name();
    r.append(repo.as_str());
    r.append("/x86_64/");
    r.append(pkgname);
    r.append("/");
    Some(r)
}

impl DisplayPackage {
    /// The name, with the repository in parentheses where it is known.
    pub fn pretty_print_pkgname_and_repo(&self) -> (r: String)
        ensures
            r@ == match self.source_repo {
                Some(repo) => self.pkgname@ + " ("@ + repo@ + ")"@,
                None => self.pkgname@,
            },
    {
        match &self.source_repo {
            Some(source_repo) => {
                let mut r = self.pkgname.clone();
                r.append(" (");
                r.append(source_repo.as_str());
                r.append(")");
                r
            },
            None => self.pkgname.clone(),
        }
    }

    /// The installed version, an arrow, and the new one.
    pub fn pretty_print_version_change(&self) -> (r: String)
        ensures
            r@ == self.display_ver_old@ + "->"@ + self.display_ver_new@,
    {
        let mut r = self.display_ver_old.clone();
        r.append("->");
        r.append(self.display_ver_new.as_str());
        r
    }

    /// The line of a pending update from a sync repository.
    pub fn from_pacman_update(update: &PacmanUpdate, config: &Config) -> (r: DisplayPackage)
        ensures
            r.display_ver_new@ == joined(update.pkgver_new@, update.pkgrel_new@),
            r.display_ver_old@ == joined(update.pkgver_cur@, update.pkgrel_cur@),
            r.pkgname@ == update.pkgname@,
            match update.source_repo {
                Some(repo) => r.source_repo matches Some(s) && s@ == repo_name(repo) && match pacman_url_spec(
                    update.pkgname@,
                    repo,
                    config.other_repo_urls@,
                ) {
                    Some(u) => r.url matches Some(s) && s@ == u,
                    None => r.url is None,
                },
                None => r.source_repo is None && r.url is None,
            },
    {
        let (source_repo, url) = match &update.source_repo {
            Some(repo) => (
                Some(repo.name()),
                pacman_url(update.pkgname.as_str(), repo.duplicate(), &config.other_repo_urls),
            ),
            None => (None, None),
        };
        DisplayPackage {
            display_ver_new: join_dash(&update.pkgver_new, &update.pkgrel_new),
            display_ver_old: join_dash(&update.pkgver_cur, &update.pkgrel_cur),
            source_repo,
            pkgname: update.pkgname.clone(),
            url,
        }
    }

    /// The line of a pending AUR update.
    pub fn from_aur_update(update: &AurUpdate) -> (r: DisplayPackage)
        ensures
            r.display_ver_new@ == joined(update.pkgver_new@, update.pkgrel_new@),
            r.display_ver_old@ == joined(update.pkgver_cur@, update.pkgrel_cur@),
            r.pkgname@ == update.pkgname@,
            r.source_repo matches Some(s) && s@ == "aur"@,
            r.url matches Some(u) && u@ == aur_url_spec(update.pkgname@),
    {
        DisplayPackage {
            display_ver_new: join_dash(&update.pkgver_new, &update.pkgrel_new),
            display_ver_old: join_dash(&update.pkgver_cur, &update.pkgrel_cur),
            source_repo: Some(String::from_str("aur")),
            pkgname: update.pkgname.clone(),
            url: Some(aur_url(update.pkgname.as_str())),
        }
    }

    /// The line of a pending devel update: the new head's short hash
    /// between asterisks.
    pub fn from_devel_update(update: &DevelUpdate) -> (r: DisplayPackage)
        ensures
            r.display_ver_new@ == "*"@ + update.ref_id_new@ + "*"@,
            r.display_ver_old@ == joined(update.pkgver_cur@, update.pkgrel_cur@),
            r.pkgname@ == update.pkgname@,
            r.source_repo matches Some(s) && s@ == "aur"@,
            r.url matches Some(u) && u@ == aur_url_spec(update.pkgname@),
    {
        let mut ver_new = String::from_str("*");
        ver_new.append(update.ref_id_new.as_str());
        ver_new.append("*");
        DisplayPackage {
            display_ver_new: ver_new,
            display_ver_old: join_dash(&update.pkgver_cur, &update.pkgrel_cur),
            url: Some(aur_url(update.pkgname.as_str())),
            pkgname: update.pkgname.clone(),
            source_repo: Some(String::from_str("aur")),
        }
    }
}

} // verus!
