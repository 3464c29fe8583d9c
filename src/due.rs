//! When an update is due: by version order for AUR packages, by commit hash
//! for devel packages.
use crate::package::{AurUpdate, DevelUpdate};
use crate::text::{chars_of, contains, contains_exec, lex_greater, lex_greater_exec};
use std::cmp::Ordering;
use vstd::prelude::*;

verus! {

/// How `version_compare` orders version `a` against version `b`: none where
/// either string does not parse as a version.
pub uninterp spec fn version_order(a: Seq<char>, b: Seq<char>) -> Option<Ordering>;

/// Relies on `version_compare::compare`: `Err` where either string does not
/// parse as a version, else `Lt`, `Eq` or `Gt`.
#[verifier::external_body]
fn compare_versions(a: &str, b: &str) -> (r: Option<Ordering>)
    ensures
        r == version_order(a@, b@),
{
    match version_compare::compare(a, b) {
        Ok(version_compare::Cmp::Lt) => Some(Ordering::Less),
        Ok(version_compare::Cmp::Eq) => Some(Ordering::Equal),
        Ok(version_compare::Cmp::Gt) => Some(Ordering::Greater),
        Ok(_) => None,
        Err(()) => None,
    }
}

/// Due-ness from the order of the new version against the installed one:
/// due when it is after, or equal with a new release that sorts after the
/// installed release; not due when there is no order.
pub open spec fn due_for_order(order: Option<Ordering>, rel_new: Seq<char>, rel_cur: Seq<char>) -> bool {
    match order {
        Some(Ordering::Greater) => true,
        Some(Ordering::Equal) => lex_greater(rel_new, rel_cur),
        _ => false,
    }
}

/// An AUR package is due for an update when its new version orders after
/// the installed one, or orders equal and its new release sorts after the
/// installed release. Where a version does not parse, it is not due.
pub open spec fn aur_due(ver_new: Seq<char>, ver_cur: Seq<char>, rel_new: Seq<char>, rel_cur: Seq<char>) -> bool {
    due_for_order(version_order(ver_new, ver_cur), rel_new, rel_cur)
}

/// `aur_due` of an update's fields.
pub open spec fn aur_due_of(u: AurUpdate) -> bool {
    aur_due(u.pkgver_new@, u.pkgver_cur@, u.pkgrel_new@, u.pkgrel_cur@)
}

/// A devel package is due for an update when its installed version does not
/// hold the short hash of the head of its source.
pub open spec fn devel_due_of(u: DevelUpdate) -> bool {
    !contains(u.pkgver_cur@, u.ref_id_new@)
}

/// Whether an update is due, given how its new version orders against the
/// installed one (`None` where either does not parse).
pub fn aur_due_for_order(order: Option<Ordering>, rel_new: &str, rel_cur: &str) -> (r: bool)
    ensures
        r == due_for_order(order, rel_new@, rel_cur@),
{
    match order {
        Some(Ordering::Greater) => true,
        Some(Ordering::Equal) => lex_greater_exec(rel_new, rel_cur),
        _ => false,
    }
}

/// Whether an AUR package is due for an update.
pub fn aur_update_due(package: &AurUpdate) -> (r: bool)
    ensures
        r == aur_due_of(*package),
{
    let order = compare_versions(package.pkgver_new.as_str(), package.pkgver_cur.as_str());
    aur_due_for_order(order, package.pkgrel_new.as_str(), package.pkgrel_cur.as_str())
}

/// Whether a devel package is due for an update.
pub fn devel_update_due(update: &DevelUpdate) -> (r: bool)
    ensures
        r == devel_due_of(*update),
{
    let cur = chars_of(update.pkgver_cur.as_str());
    let id = chars_of(update.ref_id_new.as_str());
    !contains_exec(&cur, &id)
}

/// Where both versions parse, an AUR update is due exactly when the new
/// version orders after the installed one, or the two order equal and the
/// new release sorts after the installed release.
pub proof fn lemma_due_follows_version_order(
    ver_new: Seq<char>,
    ver_cur: Seq<char>,
    rel_new: Seq<char>,
    rel_cur: Seq<char>,
)
    requires
        version_order(ver_new, ver_cur) is Some,
    ensures
        aur_due(ver_new, ver_cur, rel_new, rel_cur) <==> (version_order(ver_new, ver_cur) == Some(
            Ordering::Greater,
        ) || (version_order(ver_new, ver_cur) == Some(Ordering::Equal) && lex_greater(
            rel_new,
            rel_cur,
        ))),
{
}

/// Where either version fails to parse, an AUR update is not due, whatever
/// the releases.
pub proof fn lemma_unparsable_version_not_due(
    ver_new: Seq<char>,
    ver_cur: Seq<char>,
    rel_new: Seq<char>,
    rel_cur: Seq<char>,
)
    requires
        version_order(ver_new, ver_cur) is None,
    ensures
        !aur_due(ver_new, ver_cur, rel_new, rel_cur),
{
}

} // verus!
