use arch_updates::{
    aur_updates_offline, aur_updates_online, checkupdates_result, devel_packages, devel_sources,
    devel_update, devel_updates_offline, devel_updates_online, head_identifier, lines_of, parse_aur_packages,
    parse_sources_list, parse_updates, parse_url, pacman_updates_offline, pacman_updates_online,
    AurPackageInfo, AurUpdate, Error, HeadQuery, Package, ParsedUpdate, SourceRepo,
};

fn package(name: &str, ver: &str, rel: &str) -> Package {
    Package { pkgname: name.to_string(), pkgver: ver.to_string(), pkgrel: rel.to_string() }
}

fn info(name: &str, version: &str) -> AurPackageInfo {
    AurPackageInfo { name: name.to_string(), version: version.to_string() }
}

#[test]
fn parse_url_matches_example_entry() {
    let url = parse_url("pkg::git+https://host/path.git#branch=main").unwrap();
    assert_eq!(url.remote, "https://host/path.git");
    assert_eq!(url.protocol, "https");
    assert_eq!(url.branch, Some("main"));
}

#[test]
fn parse_url_pinned_refs_give_none() {
    assert!(parse_url("git+https://host/path.git#commit=abc123").is_none());
    assert!(parse_url("git+https://host/path.git#tag=v1.0").is_none());
}

#[test]
fn parse_url_without_git_or_scheme_gives_none() {
    assert!(parse_url("https://host/path.tar.gz").is_none());
    assert!(parse_url("git+host/path.git").is_none());
}

#[test]
fn parse_url_other_fragment_and_query() {
    let url = parse_url("git://host/repo.git?signed#revision=5").unwrap();
    assert_eq!(url.remote, "git://host/repo.git");
    assert_eq!(url.protocol, "git");
    assert_eq!(url.branch, None);
    let url = parse_url("git+ssh://host/repo.git").unwrap();
    assert_eq!(url.remote, "ssh://host/repo.git");
    assert_eq!(url.protocol, "ssh");
    assert_eq!(url.branch, None);
}

#[test]
fn parse_update_line_example() {
    let u = arch_updates::parse_update("libadwaita 1:1.6.0-1 -> 1:1.6.1-2").unwrap();
    assert_eq!(u.pkgname, "libadwaita");
    assert_eq!(u.pkgver_cur, "1:1.6.0");
    assert_eq!(u.pkgrel_cur, "1");
    assert_eq!(u.pkgver_new, "1:1.6.1");
    assert_eq!(u.pkgrel_new, "2");
}

#[test]
fn parse_update_bad_version_reports_that_field() {
    match arch_updates::parse_update("pkg 1.0 -> 1.1-1").unwrap_err() {
        Error::ParseErrorPkgverPkgrel(s) => assert_eq!(s, "1.0"),
        _ => panic!(),
    }
}

#[test]
fn parse_updates_fails_fast() {
    let lines = vec!["a 1-1 -> 2-1".to_string(), "broken".to_string(), "b 1-1 -> 2-1".to_string()];
    match parse_updates(&lines).unwrap_err() {
        Error::ParseErrorCheckUpdates(s) => assert_eq!(s, "broken"),
        _ => panic!(),
    }
    let lines = vec!["a 1-1 -> 2-1".to_string(), "b 3-1 -> 3-2".to_string()];
    let parsed = parse_updates(&lines).unwrap();
    assert_eq!(parsed.len(), 2);
    assert_eq!(parsed[1].pkgrel_new, "2");
}

#[test]
fn checkupdates_statuses() {
    let lines = vec!["a 1-1 -> 2-1".to_string()];
    assert_eq!(checkupdates_result(Some(0), &lines, String::new()).unwrap().len(), 1);
    assert!(checkupdates_result(Some(2), &lines, String::new()).unwrap().is_empty());
    match checkupdates_result(Some(1), &lines, "db locked".to_string()).unwrap_err() {
        Error::CheckUpdatesReturnedError(s) => assert_eq!(s, "db locked"),
        _ => panic!(),
    }
    assert!(checkupdates_result(None, &lines, String::new()).is_err());
}

#[test]
fn sources_list_parses_and_later_entry_wins() {
    let lines = vec![
        "core pacman 7.0.0-1 [installed]".to_string(),
        "endeavouros yay 12.0-1".to_string(),
        "extra pacman 7.0.1-1".to_string(),
    ];
    let list = parse_sources_list(&lines).unwrap();
    assert_eq!(list.get(&"pacman".to_string()), Some(SourceRepo::Extra));
    assert_eq!(list.get(&"yay".to_string()), Some(SourceRepo::Other("endeavouros".to_string())));
    assert_eq!(list.get(&"linux".to_string()), None);
    let bad = vec!["core pacman 7.0.0-1".to_string(), "nospace".to_string()];
    match parse_sources_list(&bad).unwrap_err() {
        Error::ParseErrorPacman(s) => assert_eq!(s, "nospace"),
        _ => panic!(),
    }
}

#[test]
fn source_repo_names_round_trip() {
    for name in ["core", "extra", "multilib", "core-testing", "extra-testing", "multilib-testing", "gnome-unstable", "kde-unstable", "chaotic-aur"] {
        assert_eq!(SourceRepo::from_text(name).name(), name);
    }
    assert_eq!(SourceRepo::from_text("kde-unstable"), SourceRepo::KdeUnstable);
    assert_eq!(SourceRepo::from_text("Core"), SourceRepo::Other("Core".to_string()));
}

#[test]
fn pacman_online_and_offline_annotate() {
    let parsed = vec![ParsedUpdate {
        pkgname: "linux".to_string(),
        pkgver_cur: "6.1".to_string(),
        pkgrel_cur: "1".to_string(),
        pkgver_new: "6.2".to_string(),
        pkgrel_new: "1".to_string(),
    }];
    let list = parse_sources_list(&vec!["core linux 6.2-1".to_string()]).unwrap();
    let (online, cache) = pacman_updates_online(parsed.clone(), list);
    assert_eq!(online[0].source_repo, Some(SourceRepo::Core));
    let offline = pacman_updates_offline(parsed, &cache);
    assert_eq!(online, offline);
}

#[test]
fn aur_packages_skip_ignored_lines() {
    let lines = vec![
        "yay 12.0-1".to_string(),
        "ignored-thing 1.0-1".to_string(),
        "paru-bin 2.0.4-1".to_string(),
    ];
    let ignored = vec!["ignored".to_string()];
    let packages = parse_aur_packages(&lines, &ignored).unwrap();
    assert_eq!(packages, vec![package("yay", "12.0", "1"), package("paru-bin", "2.0.4", "1")]);
    let bad = vec!["yay12.0-1".to_string()];
    match parse_aur_packages(&bad, &Vec::new()).unwrap_err() {
        Error::ParseErrorPacman(s) => assert_eq!(s, "yay12.0-1"),
        _ => panic!(),
    }
    assert!(parse_aur_packages(&bad, &vec!["yay".to_string()]).unwrap().is_empty());
}

#[test]
fn aur_online_keeps_all_answers_and_reports_due() {
    let installed = vec![package("yay", "12.0", "1"), package("paru", "2.0", "1")];
    let answers = vec![info("yay", "12.1-1"), info("paru", "2.0-1"), info("not-installed", "bad")];
    let (due, cache) = aur_updates_online(&installed, &answers).unwrap();
    assert_eq!(cache.updates.len(), 2);
    assert_eq!(due.len(), 1);
    assert_eq!(due[0].pkgname, "yay");
    assert_eq!(due[0].pkgver_new, "12.1");
    match aur_updates_online(&installed, &vec![info("yay", "12.1")]).unwrap_err() {
        Error::ParseErrorPkgverPkgrel(s) => assert_eq!(s, "12.1"),
        _ => panic!(),
    }
}

#[test]
fn aur_offline_due_within_online_due() {
    let installed = vec![package("yay", "12.0", "1"), package("paru", "2.0", "1"), package("local", "1", "1")];
    let answers = vec![info("yay", "12.1-1"), info("paru", "2.0-1")];
    let (online_due, cache) = aur_updates_online(&installed, &answers).unwrap();
    let offline_due = aur_updates_offline(&installed, &cache);
    assert_eq!(offline_due, online_due);
    let updated = vec![package("yay", "12.1", "1"), package("paru", "2.0", "1")];
    let after_upgrade = aur_updates_offline(&updated, &cache);
    assert!(after_upgrade.is_empty());
    for u in &after_upgrade {
        assert!(online_due.contains(u));
    }
}

#[test]
fn aur_offline_ignores_uncached_packages() {
    let cache = aur_updates_online(&vec![], &vec![]).unwrap().1;
    let offline = aur_updates_offline(&vec![package("yay", "12.0", "1")], &cache);
    assert_eq!(offline, Vec::<AurUpdate>::new());
}

#[test]
fn devel_packages_fold_case_and_match_suffix() {
    let foreign = vec![
        package("hyprlang-git", "0.6", "1"),
        package("Foo-GIT", "1", "1"),
        package("python-gitpython", "3", "1"),
        package("yay", "12", "1"),
    ];
    let devel = devel_packages(&foreign);
    assert_eq!(devel, vec![package("hyprlang-git", "0.6", "1"), package("Foo-GIT", "1", "1")]);
}

const SRCINFO: &str = "pkgbase = hyprlang-git
\tpkgdesc = The official implementation library for the hypr config language
\tpkgver = 0.6.0.r12.g72b934e
\tpkgrel = 1
\tarch = x86_64
\tlicense = LGPL-3.0-only
\tsource = hyprlang::git+https://github.com/hyprwm/hyprlang.git
\tsource = extra::git+https://example.org/extra.git#branch=dev
\tsource = pinned::git+https://example.org/pinned.git#tag=v1
\tsource = patch.diff
\tsha256sums = SKIP
\tsha256sums = SKIP
\tsha256sums = SKIP
\tsha256sums = SKIP

pkgname = hyprlang-git
";

#[test]
fn devel_sources_from_srcinfo() {
    let queries = devel_sources(SRCINFO).unwrap();
    assert_eq!(
        queries,
        vec![
            HeadQuery { remote: "https://github.com/hyprwm/hyprlang.git".to_string(), branch: None },
            HeadQuery { remote: "https://example.org/extra.git".to_string(), branch: Some("dev".to_string()) },
        ]
    );
}

#[test]
fn devel_sources_bad_srcinfo() {
    match devel_sources("this is not = a srcinfo\n\tsource = x").unwrap_err() {
        Error::ParseErrorSrcinfo(_) => {}
        _ => panic!(),
    }
}

#[test]
fn head_identifier_takes_short_hash() {
    assert_eq!(head_identifier("72b934e1a2b3c4d5\tHEAD\n").unwrap(), "72b934e");
    match head_identifier("72b93").unwrap_err() {
        Error::HeadIdentifierTooShort => {}
        _ => panic!(),
    }
}

#[test]
fn devel_online_and_offline() {
    let pkg = package("hyprlang-git", "0.6.0.r12.g72b934e", "1");
    let records = vec![devel_update(&pkg, "72b934e".to_string()), devel_update(&pkg, "0000000".to_string())];
    let (due, cache) = devel_updates_online(records);
    assert_eq!(cache.updates.len(), 2);
    assert_eq!(due.len(), 1);
    assert_eq!(due[0].ref_id_new, "0000000");
    let offline = devel_updates_offline(&vec![pkg.clone()], &cache);
    assert_eq!(offline, due);
    let upgraded = package("hyprlang-git", "0.6.0.r13.g0000000", "1");
    let offline = devel_updates_offline(&vec![upgraded], &cache);
    assert_eq!(offline.len(), 1);
    assert_eq!(offline[0].ref_id_new, "72b934e");
}

#[test]
fn lines_follow_line_endings() {
    assert_eq!(lines_of("a\r\nb\n"), vec!["a".to_string(), "b".to_string()]);
    assert_eq!(lines_of(""), Vec::<String>::new());
    assert_eq!(lines_of("\n"), vec![String::new()]);
    assert_eq!(lines_of("a\r"), vec!["a\r".to_string()]);
    assert_eq!(lines_of("a\n\nb"), vec!["a".to_string(), String::new(), "b".to_string()]);
    for text in ["x y\nz\r\n\r\nw", "one", "\r\n\n", "tail\n\n"] {
        let expected: Vec<String> = text.lines().map(ToString::to_string).collect();
        assert_eq!(lines_of(text), expected, "{text:?}");
    }
}
