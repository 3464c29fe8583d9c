use arch_updates::{parse_pacman_qm, parse_update, parse_url, parse_ver_and_rel, Error, Package, PackageUrl, ParsedUpdate};

#[test]
fn test_parse_url() {
    let url = parse_url(
        "paper-icon-theme::git+https://github.com/snwh/paper-icon-theme.git#branch=main",
    )
    .unwrap();
    let expected = PackageUrl {
        remote: "https://github.com/snwh/paper-icon-theme.git".to_string(),
        protocol: "https",
        branch: Some("main"),
    };
    assert_eq!(url, expected);
}

#[test]
fn test_parse_url_none() {
    let url = parse_url(
        "paper-icon-themegit:gopher://github.com/snwh/paper-icon-theme.git branch=main",
    );
    println!("{:#?}", url);
    assert!(url.is_none());
}

#[test]
fn test_parse_update() {
    let update = parse_update("libadwaita 1:1.6.0-1 -> 1:1.6.1-2").unwrap();
    let expected = ParsedUpdate {
        pkgname: "libadwaita".to_string(),
        pkgver_cur: "1:1.6.0".to_string(),
        pkgrel_cur: "1".to_string(),
        pkgver_new: "1:1.6.1".to_string(),
        pkgrel_new: "2".to_string(),
    };
    assert_eq!(update, expected);
}

#[test]
fn test_parse_update_error() {
    let str = "libadwaita1:1.6.0-1 - 1:1.6.12";
    let update = parse_update(str).unwrap_err();
    println!("{:#?}", update);
    match update {
        Error::ParseErrorCheckUpdates(s) => assert_eq!(s, str),
        _ => panic!(),
    }
}

#[test]
fn test_parse_pacman_qm() {
    let update = parse_pacman_qm("winetricks-git 20240105.r47.g72b934e1-2").unwrap();
    let expected = Package {
        pkgname: "winetricks-git".to_string(),
        pkgver: "20240105.r47.g72b934e1".to_string(),
        pkgrel: "2".to_string(),
    };
    assert_eq!(update, expected);
}

#[test]
fn test_parse_pacman_qm_error() {
    let str = "winetricks-git0240105.r47.g72b934e1-2";
    let update = parse_pacman_qm(str).unwrap_err();
    println!("{:#?}", update);
    match update {
        Error::ParseErrorPacman(s) => assert_eq!(s, str),
        _ => panic!(),
    }
}

#[test]
fn test_parse_version() {
    let actual = parse_ver_and_rel("20-240105.r47.g72b934e1-2").unwrap();
    let expected = ("20-240105.r47.g72b934e1".to_string(), "2".to_string());
    assert_eq!(actual, expected);
}

#[test]
fn test_parse_version_error() {
    let str = "20240105.r47.g72b934e12";
    let actual = parse_ver_and_rel("20240105.r47.g72b934e12").unwrap_err();
    match actual {
        Error::ParseErrorPkgverPkgrel(s) => assert_eq!(s, str),
        _ => panic!(),
    }
}
