use arch_updates::{
    flatten_timeout, split_online_results, AppIcon, AurUpdate, AurUpdatesCache,
    BasicResultWithHistory, CheckType, Collapsed, Config, DevelUpdate, DevelUpdatesCache,
    DisplayPackage, OfflineUpdates, OnlineUpdates, PacmanUpdate, PacmanUpdatesCache, Scheduler,
    SourceRepo, TimeoutError, UpdateType, UpdatesState,
};

#[test]
fn history_two_successes_keep_latest() {
    let s = BasicResultWithHistory::new_from_result(Ok::<Vec<u32>, String>(vec![1]));
    let s = s.replace_with_result_preserving_history(Ok::<Vec<u32>, String>(vec![2, 3]));
    assert!(matches!(s, BasicResultWithHistory::Current { ref value } if *value == vec![2, 3]));
    assert_eq!(s.len(), 2);
    assert!(!s.has_error());
}

#[test]
fn history_success_then_failure_keeps_value() {
    let s = BasicResultWithHistory::new_from_result(Ok::<Vec<u32>, String>(vec![1]));
    let s = s.replace_with_result_preserving_history(Err::<Vec<u32>, String>("down".to_string()));
    assert!(matches!(s, BasicResultWithHistory::ErrorWithHistory { ref last_value } if *last_value == vec![1]));
    assert_eq!(s.len(), 1);
    assert!(s.has_error());
    let s = s.replace_with_result_preserving_history(Err::<Vec<u32>, String>("still".to_string()));
    assert!(matches!(s, BasicResultWithHistory::ErrorWithHistory { ref last_value } if *last_value == vec![1]));
}

#[test]
fn history_failure_without_value() {
    let s = BasicResultWithHistory::new_from_result(Err::<Vec<u32>, String>("x".to_string()));
    assert!(matches!(s, BasicResultWithHistory::Error));
    assert_eq!(s.len(), 0);
    assert!(s.has_error());
    let s = s.replace_with_option_result_preserving_history(None::<Result<Vec<u32>, String>>);
    assert!(matches!(s, BasicResultWithHistory::Error));
    let s = s.replace_with_option_result_preserving_history(Some(Ok::<Vec<u32>, String>(vec![4])));
    assert_eq!(s.len(), 1);
}

#[test]
fn timeout_flattening() {
    assert!(matches!(flatten_timeout::<u32, String>(None), Err(TimeoutError::Timeout)));
    assert!(matches!(flatten_timeout::<u32, String>(Some(Ok(3))), Ok(3)));
    assert!(matches!(flatten_timeout::<u32, String>(Some(Err("e".to_string()))), Err(TimeoutError::Other(ref e)) if e == "e"));
}

#[test]
fn scheduler_every_kth_tick_online() {
    let k = 4;
    let mut s = Scheduler::new(k);
    for t in 0..20 {
        let check = s.tick();
        assert_eq!(check == CheckType::Online, t % k == 0, "tick {t}");
    }
}

#[test]
fn scheduler_refresh_resets_phase() {
    let mut s = Scheduler::new(5);
    assert_eq!(s.tick(), CheckType::Online);
    assert_eq!(s.tick(), CheckType::Offline);
    assert_eq!(s.tick(), CheckType::Offline);
    assert_eq!(s.force_refresh(), CheckType::Online);
    assert_eq!(s.tick(), CheckType::Online);
    assert_eq!(s.tick(), CheckType::Offline);
}

#[test]
fn scheduler_period_zero_or_one_always_online() {
    let mut s = Scheduler::new(0);
    let mut t = Scheduler::new(1);
    for _ in 0..5 {
        assert_eq!(s.tick(), CheckType::Online);
        assert_eq!(t.tick(), CheckType::Online);
    }
}

fn aur_update(name: &str) -> AurUpdate {
    AurUpdate {
        pkgname: name.to_string(),
        pkgver_cur: "1".to_string(),
        pkgrel_cur: "1".to_string(),
        pkgver_new: "2".to_string(),
        pkgrel_new: "1".to_string(),
    }
}

#[test]
fn online_results_drop_failed_caches() {
    let (updates, caches) = split_online_results(
        Ok((Vec::<PacmanUpdate>::new(), PacmanUpdatesCache::default())),
        Err("AUR down".to_string()),
        Ok((Vec::<DevelUpdate>::new(), DevelUpdatesCache::default())),
    );
    assert!(updates.pacman.is_ok());
    assert_eq!(updates.aur.unwrap_err(), "AUR down");
    assert!(caches.pacman_cache.is_some());
    assert!(caches.aur_cache.is_none());
    assert!(caches.devel_cache.is_some());
    let _unused: Option<AurUpdatesCache> = caches.aur_cache;
}

#[test]
fn updates_state_counts_and_keeps_history() {
    let mut state = UpdatesState::new();
    assert_eq!(state.total_filtered(&vec![]), 0);
    assert!(state.get_refreshing());
    assert!(!state.has_errors());
    state.handle_online_updates(
        OnlineUpdates {
            pacman: Ok(vec![]),
            aur: Ok(vec![aur_update("a"), aur_update("b")]),
            devel: Err("timeout".to_string()),
        },
        1_700_000_000,
    );
    assert_eq!(state.total_filtered(&vec![]), 2);
    assert_eq!(state.total_filtered(&vec![UpdateType::Aur]), 0);
    assert!(state.has_errors());
    assert!(!state.get_refreshing());
    state.set_refreshing();
    assert!(state.get_refreshing());
    state.handle_offline_updates(OfflineUpdates {
        pacman: None,
        aur: Some(Err("offline failed".to_string())),
        devel: None,
    });
    assert_eq!(state.total_filtered(&vec![UpdateType::Devel, UpdateType::Pacman]), 2);
    assert!(state.get_refreshing());
    match &state {
        UpdatesState::Running { last_checked_online, aur, .. } => {
            assert_eq!(*last_checked_online, 1_700_000_000);
            assert!(aur.has_error());
        }
        UpdatesState::Init => panic!(),
    }
}

#[test]
fn offline_before_online_changes_nothing() {
    let mut state = UpdatesState::new();
    state.handle_offline_updates(OfflineUpdates { pacman: Some(Ok(vec![])), aur: None, devel: None });
    assert!(matches!(state, UpdatesState::Init));
}

#[test]
fn display_lines() {
    let pacman = PacmanUpdate {
        pkgname: "linux".to_string(),
        pkgver_cur: "6.1".to_string(),
        pkgrel_cur: "1".to_string(),
        pkgver_new: "6.2".to_string(),
        pkgrel_new: "3".to_string(),
        source_repo: Some(SourceRepo::Core),
    };
    let d = DisplayPackage::from_pacman_update(&pacman, &Config::default());
    assert_eq!(d.pretty_print_pkgname_and_repo(), "linux (core)");
    assert_eq!(d.pretty_print_version_change(), "6.1-1->6.2-3");
    assert_eq!(d.url.as_deref(), Some("https://archlinux.org/packages/core/x86_64/linux/"));
    let d = DisplayPackage::from_aur_update(&aur_update("yay"));
    assert_eq!(d.pretty_print_pkgname_and_repo(), "yay (aur)");
    assert_eq!(d.url.as_deref(), Some("https://aur.archlinux.org/packages/yay"));
    let devel = DevelUpdate {
        pkgname: "hyprlang-git".to_string(),
        pkgver_cur: "0.6".to_string(),
        pkgrel_cur: "1".to_string(),
        ref_id_new: "72b934e".to_string(),
    };
    let d = DisplayPackage::from_devel_update(&devel);
    assert_eq!(d.pretty_print_version_change(), "0.6-1->*72b934e*");
    let no_repo = PacmanUpdate { source_repo: None, ..pacman };
    let d = DisplayPackage::from_pacman_update(&no_repo, &Config::default());
    assert_eq!(d.pretty_print_pkgname_and_repo(), "linux");
    assert_eq!(d.url, None);
}

#[test]
fn collapsed_toggles_and_icons() {
    assert_eq!(Collapsed::default().toggle(), Collapsed::Expanded);
    assert_eq!(Collapsed::Expanded.toggle(), Collapsed::Collapsed);
    assert_eq!(AppIcon::UpToDate.to_str(), "emblem-default-symbolic");
    let c = Config::default();
    assert_eq!(c.online_check_period, 600);
    assert_eq!(c.interval_secs, 6);
    assert_eq!(c.timeout_secs, 120);
}
