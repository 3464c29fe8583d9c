use arch_updates::{add_sources_to_updates, parse_pacman_sl, Error, PacmanUpdate, ParsedUpdate, SourceRepo, SourcesList};

#[test]
fn test_parse_pacman_sl() {
    let (pkgname, source_repo) =
        parse_pacman_sl("core pacman 7.0.0.r6.gc685ae6-1 [installed]").unwrap();
    assert_eq!(pkgname, "pacman".to_string());
    assert_eq!(source_repo, SourceRepo::Core);
}

#[test]
fn test_parse_pacman_sl_error() {
    let str = "pacman-7.0.0.r6.gc685ae6-1[installed]";
    let err = parse_pacman_sl(str).unwrap_err();
    match err {
        Error::ParseErrorPacman(s) => assert_eq!(s, str),
        _ => panic!(),
    }
}

#[test]
fn test_add_sources_to_updates() {
    let parsed_sources = vec![
        ParsedUpdate {
            pkgname: "pacman".to_string(),
            pkgver_cur: "1.0.0".to_string(),
            pkgrel_cur: "1".to_string(),
            pkgver_new: "1.1.1".to_string(),
            pkgrel_new: "1".to_string(),
        },
        ParsedUpdate {
            pkgname: "linux-aur".to_string(),
            pkgver_cur: "6.12.1.aur1".to_string(),
            pkgrel_cur: "1".to_string(),
            pkgver_new: "6.13.1.aur1".to_string(),
            pkgrel_new: "1".to_string(),
        },
    ];
    let sources_list = SourcesList::from_entries(vec![
        ("linux-zen".to_string(), SourceRepo::Extra),
        ("linux".to_string(), SourceRepo::Core),
        ("pacman".to_string(), SourceRepo::Core),
    ]);
    let expected = vec![
        PacmanUpdate {
            pkgname: "pacman".to_string(),
            pkgver_cur: "1.0.0".to_string(),
            pkgrel_cur: "1".to_string(),
            pkgver_new: "1.1.1".to_string(),
            pkgrel_new: "1".to_string(),
            source_repo: Some(SourceRepo::Core),
        },
        PacmanUpdate {
            pkgname: "linux-aur".to_string(),
            pkgver_cur: "6.12.1.aur1".to_string(),
            pkgrel_cur: "1".to_string(),
            pkgver_new: "6.13.1.aur1".to_string(),
            pkgrel_new: "1".to_string(),
            source_repo: None,
        },
    ];
    let merged = add_sources_to_updates(parsed_sources, &sources_list);
    assert_eq!(expected, merged);
}
