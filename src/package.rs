//! Installed packages and the updates found for them.
use crate::source_repo::SourceRepo;
use vstd::prelude::*;

verus! {

/// A package as the package manager lists it: name, version and release.
#[derive(Clone, Debug, Eq, PartialEq)]
pub struct Package {
    pub pkgname: String,
    pub pkgver: String,
    pub pkgrel: String,
}

/// A line of the pending-update tool's output, before the source repository
/// of the package is known.
#[derive(Clone, Debug, Eq, PartialEq)]
pub struct ParsedUpdate {
    pub pkgname: String,
    pub pkgver_cur: String,
    pub pkgrel_cur: String,
    pub pkgver_new: String,
    pub pkgrel_new: String,
}

/// Installed version of a package from the sync repositories against the
/// newest version there.
#[derive(Clone, Debug, Eq, PartialEq)]
pub struct PacmanUpdate {
    pub pkgname: String,
    pub pkgver_cur: String,
    pub pkgrel_cur: String,
    pub pkgver_new: String,
    pub pkgrel_new: String,
    pub source_repo: Option<SourceRepo>,
}

/// Installed version of an AUR package against the newest version in the AUR.
#[derive(Clone, Debug, Eq, PartialEq)]
pub struct AurUpdate {
    pub pkgname: String,
    pub pkgver_cur: String,
    pub pkgrel_cur: String,
    pub pkgver_new: String,
    pub pkgrel_new: String,
}

/// Installed version of a devel package against the short hash of the head
/// of one of its source repositories.
#[derive(Clone, Debug, Eq, PartialEq)]
pub struct DevelUpdate {
    pub pkgname: String,
    pub pkgver_cur: String,
    pub pkgrel_cur: String,
    /// Short hash of the newest commit on the tracked branch.
    pub ref_id_new: String,
}

} // verus!
