use arch_updates::{aur_update_due, devel_update_due, AurUpdate, DevelUpdate};
use std::cmp::Ordering;

fn aur(ver_cur: &str, rel_cur: &str, ver_new: &str, rel_new: &str) -> AurUpdate {
    AurUpdate {
        pkgname: "pkg".to_string(),
        pkgver_cur: ver_cur.to_string(),
        pkgrel_cur: rel_cur.to_string(),
        pkgver_new: ver_new.to_string(),
        pkgrel_new: rel_new.to_string(),
    }
}

#[test]
fn newer_version_is_due() {
    assert!(aur_update_due(&aur("1.2.3", "1", "1.10.0", "1")));
}

#[test]
fn older_version_is_not_due() {
    assert!(!aur_update_due(&aur("1.10.0", "1", "1.2.3", "5")));
}

#[test]
fn equal_version_greater_release_is_due() {
    assert!(aur_update_due(&aur("2.0", "1", "2.0", "2")));
}

#[test]
fn equal_version_equal_release_is_not_due() {
    assert!(!aur_update_due(&aur("2.0", "3", "2.0", "3")));
}

#[test]
fn equal_version_lesser_release_is_not_due() {
    assert!(!aur_update_due(&aur("2.0", "3", "2.0", "2")));
}

#[test]
fn epoch_versions_compare_numerically() {
    assert!(aur_update_due(&aur("1:1.6.0", "1", "1:1.6.1", "1")));
}

#[test]
fn malformed_version_is_never_due() {
    assert!(!aur_update_due(&aur("1.0", "1", "deadbeef", "9")));
    assert!(!aur_update_due(&aur("deadbeef", "1", "1.0", "9")));
    assert!(!aur_update_due(&aur("abc", "1", "abc", "9")));
}

fn devel(pkgver_cur: &str, ref_id_new: &str) -> DevelUpdate {
    DevelUpdate {
        pkgname: "hyprlang-git".to_string(),
        pkgver_cur: pkgver_cur.to_string(),
        pkgrel_cur: "1".to_string(),
        ref_id_new: ref_id_new.to_string(),
    }
}

#[test]
fn devel_with_matching_hash_is_not_due() {
    assert!(!devel_update_due(&devel("0.6.0.r12.g72b934e", "72b934e")));
}

#[test]
fn devel_with_other_hash_is_due() {
    assert!(devel_update_due(&devel("0.6.0.r12.g72b934e", "a1b2c3d")));
}

#[test]
fn due_for_each_order() {
    assert!(arch_updates::aur_due_for_order(Some(Ordering::Greater), "1", "9"));
    assert!(!arch_updates::aur_due_for_order(Some(Ordering::Less), "9", "1"));
    assert!(arch_updates::aur_due_for_order(Some(Ordering::Equal), "2", "1"));
    assert!(!arch_updates::aur_due_for_order(Some(Ordering::Equal), "1", "1"));
    assert!(!arch_updates::aur_due_for_order(Some(Ordering::Equal), "10", "9"));
    assert!(!arch_updates::aur_due_for_order(None, "2", "1"));
}
