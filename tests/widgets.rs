use arch_updates::{pacman_url, SourceRepo};

#[test]
fn test_pacman_url_with_other_repo() {
    let other_repo_urls = vec![
        (
            "endeavouros".to_string(),
            "https://github.com/endeavouros-team/PKGBUILDS/tree/master/{pkgname}".to_string(),
        ),
        (
            "chaotic-aur".to_string(),
            "https://gitlab.com/chaotic-aur/pkgbuilds/-/tree/main/{pkgname}".to_string(),
        ),
    ];
    let url = pacman_url(
        "cosmic-applet-arch",
        SourceRepo::Other("chaotic-aur".into()),
        &other_repo_urls,
    );
    let url2 = pacman_url(
        "cosmic-applet-arch",
        SourceRepo::Other("endeavouros".into()),
        &other_repo_urls,
    );
    assert_eq!(
        url.as_deref(),
        Some("https://gitlab.com/chaotic-aur/pkgbuilds/-/tree/main/cosmic-applet-arch")
    );
    assert_eq!(
        url2.as_deref(),
        Some("https://github.com/endeavouros-team/PKGBUILDS/tree/master/cosmic-applet-arch")
    );
}

#[test]
fn test_pacman_url_with_other_repo_no_pkgname() {
    let other_repo_urls = vec![(
        "endeavouros".to_string(),
        "https://github.com/endeavouros-team/PKGBUILDS/tree/master/".to_string(),
    )];
    let url = pacman_url(
        "cosmic-applet-arch",
        SourceRepo::Other("endeavouros".into()),
        &other_repo_urls,
    );
    assert_eq!(
        url.as_deref(),
        Some("https://github.com/endeavouros-team/PKGBUILDS/tree/master/")
    );
}

#[test]
fn test_pacman_url_with_other_repo_no_url() {
    let other_repo_urls = vec![(
        "endeavouros".to_string(),
        "https://github.com/endeavouros-team/PKGBUILDS/tree/master/".to_string(),
    )];
    let url = pacman_url(
        "cosmic-applet-arch",
        SourceRepo::Other("chaotic-aur".into()),
        &other_repo_urls,
    );
    assert_eq!(url.as_deref(), None);
}

#[test]
fn official_repo_url_uses_repo_name() {
    let url = pacman_url("pacman-mirrorlist", SourceRepo::CoreTesting, &Vec::new());
    assert_eq!(
        url.as_deref(),
        Some("https://archlinux.org/packages/core-testing/x86_64/pacman-mirrorlist/")
    );
}
