//! What the polling loop keeps between passes: each source's cache, and
//! each source's results with their history.
use crate::aur::AurUpdatesCache;
use crate::devel::DevelUpdatesCache;
use crate::history::{after_option_result, after_result, held_value, BasicResultWithHistory};
use crate::package::{AurUpdate, DevelUpdate, PacmanUpdate};
use crate::pacman::PacmanUpdatesCache;
use vstd::prelude::*;

verus! {

/// The kinds of update that the count can leave out.
#[derive(Clone, Copy, Debug, PartialEq, Eq, Hash, Structural)]
pub enum UpdateType {
    Aur,
    Devel,
    Pacman,
}

/// The caches of the last successful online pass, one for each source;
/// a source whose online check failed has none.
#[derive(Clone, Debug, Default)]
pub struct CacheState {
    pub pacman_cache: Option<PacmanUpdatesCache>,
    pub aur_cache: Option<AurUpdatesCache>,
    pub devel_cache: Option<DevelUpdatesCache>,
}

/// The results of an online pass, one for each source.
#[derive(Debug)]
pub struct OnlineUpdates {
    pub pacman: Result<Vec<PacmanUpdate>, String>,
    pub aur: Result<Vec<AurUpdate>, String>,
    pub devel: Result<Vec<DevelUpdate>, String>,
}

/// The results of an offline pass, one for each source; none for a source
/// that had no cache to check against.
#[derive(Debug)]
pub struct OfflineUpdates {
    pub pacman: Option<Result<Vec<PacmanUpdate>, String>>,
    pub aur: Option<Result<Vec<AurUpdate>, String>>,
    pub devel: Option<Result<Vec<DevelUpdate>, String>>,
}

/// The updates of a successful check, or its error.
pub open spec fn updates_part<U, C>(r: Result<(U, C), String>) -> Result<U, String> {
    match r {
        Ok(p) => Ok(p.0),
        Err(e) => Err(e),
    }
}

/// The cache of a successful check; none for a failed one.
pub open spec fn cache_part<U, C>(r: Result<(U, C), String>) -> Option<C> {
    match r {
        Ok(p) => Some(p.1),
        Err(_) => None,
    }
}

fn extract_cache_and_update<U, C>(update: Result<(U, C), String>) -> (r: (Option<C>, Result<U, String>))
    ensures
        r.0 == cache_part(update),
        r.1 == updates_part(update),
{
    match update {
        Ok((update, cache)) => (Some(cache), Ok(update)),
        Err(e) => (None, Err(e)),
    }
}

/// The results of an online pass and the caches that replace the old ones,
/// from what each source's online check returned: a source that failed
/// keeps no cache.
pub fn split_online_results(
    pacman: Result<(Vec<PacmanUpdate>, PacmanUpdatesCache), String>,
    aur: Result<(Vec<AurUpdate>, AurUpdatesCache), String>,
    devel: Result<(Vec<DevelUpdate>, DevelUpdatesCache), String>,
) -> (r: (OnlineUpdates, CacheState))
    ensures
        r.0.pacman == updates_part(pacman),
        r.0.aur == updates_part(aur),
        r.0.devel == updates_part(devel),
        r.1.pacman_cache == cache_part(pacman),
        r.1.aur_cache == cache_part(aur),
        r.1.devel_cache == cache_part(devel),
{
    let (pacman_cache, pacman_updates) = extract_cache_and_update(pacman);
    let (aur_cache, aur_updates) = extract_cache_and_update(aur);
    let (devel_cache, devel_updates) = extract_cache_and_update(devel);
    (
        OnlineUpdates { pacman: pacman_updates, aur: aur_updates, devel: devel_updates },
        CacheState { pacman_cache, aur_cache, devel_cache },
    )
}

/// What is known of the pending updates: nothing before the first online
/// pass, then each source's results with their history.
#[derive(Debug)]
pub enum UpdatesState {
    Init,
    Running {
        /// When the last online pass ended, in seconds since the Unix epoch.
        last_checked_online: i64,
        pacman: BasicResultWithHistory<Vec<PacmanUpdate>>,
        aur: BasicResultWithHistory<Vec<AurUpdate>>,
        devel: BasicResultWithHistory<Vec<DevelUpdate>>,
        refreshing: bool,
    },
}

/// The number of updates that a source's state holds.
pub open spec fn held_len<T>(s: BasicResultWithHistory<Vec<T>>) -> nat {
    match held_value(s) {
        Some(v) => v@.len(),
        None => 0,
    }
}

/// The number of updates of a kind, where it is not left out.
pub open spec fn counted(len: nat, kind: UpdateType, exclude: Seq<UpdateType>) -> nat {
    if exclude.contains(kind) {
        0
    } else {
        len
    }
}

/// The number of updates held, current or from history, over the kinds
/// that `exclude` does not name.
pub open spec fn total_spec(s: UpdatesState, exclude: Seq<UpdateType>) -> nat {
    match s {
        UpdatesState::Init => 0,
        UpdatesState::Running { pacman, aur, devel, .. } => counted(
            held_len(aur),
            UpdateType::Aur,
            exclude,
        ) + counted(held_len(devel), UpdateType::Devel, exclude) + counted(
            held_len(pacman),
            UpdateType::Pacman,
            exclude,
        ),
    }
}

fn excludes(exclude: &Vec<UpdateType>, kind: UpdateType) -> (r: bool)
    ensures
        r == exclude@.contains(kind),
{
    let mut i: usize = 0;
    while i < exclude.len()
        invariant
            i <= exclude.len(),
            forall|j: int| 0 <= j < i ==> exclude@[j] != kind,
        decreases exclude.len() - i,
    {
        if exclude[i] == kind {
            return true;
        }
        i = i + 1;
    }
    false
}

impl UpdatesState {
    /// The state before any pass.
    pub fn new() -> (r: UpdatesState)
        ensures
            r is Init,
    {
        UpdatesState::Init
    }

    /// The number of updates over the kinds not named in
    /// `exclude_from_count`: 0 before the first online pass.
    pub fn total_filtered(&self, exclude_from_count: &Vec<UpdateType>) -> (r: usize)
        requires
            match *self {
                UpdatesState::Init => true,
                UpdatesState::Running { pacman, aur, devel, .. } => held_len(pacman) + held_len(aur)
                    + held_len(devel) <= usize::MAX,
            },
        ensures
            r == total_spec(*self, exclude_from_count@),
    {
        match self {
            UpdatesState::Init => 0,
            UpdatesState::Running { pacman, aur, devel, .. } => {
                let a = if excludes(exclude_from_count, UpdateType::Aur) {
                    0
                } else {
                    aur.len()
                };
                let d = if excludes(exclude_from_count, UpdateType::Devel) {
                    0
                } else {
                    devel.len()
                };
                let p = if excludes(exclude_from_count, UpdateType::Pacman) {
                    0
                } else {
                    pacman.len()
                };
                a + d + p
            },
        }
    }

    /// Whether the latest check of any source failed.
    pub fn has_errors(&self) -> (r: bool)
        ensures
            r == match *self {
                UpdatesState::Init => false,
                UpdatesState::Running { pacman, aur, devel, .. } => !(pacman is Current
                    && aur is Current && devel is Current),
            },
    {
        match self {
            UpdatesState::Init => false,
            UpdatesState::Running { pacman, aur, devel, .. } => pacman.has_error()
                || aur.has_error() || devel.has_error(),
        }
    }

    /// Whether an online pass is under way: always before the first one.
    pub fn get_refreshing(&self) -> (r: bool)
        ensures
            r == match *self {
                UpdatesState::Init => true,
                UpdatesState::Running { refreshing, .. } => refreshing,
            },
    {
        match self {
            UpdatesState::Init => true,
            UpdatesState::Running { refreshing, .. } => *refreshing,
        }
    }

    /// Marks an online pass as under way.
    pub fn set_refreshing(&mut self)
        ensures
            match *old(self) {
                UpdatesState::Init => *final(self) is Init,
                UpdatesState::Running { last_checked_online, pacman, aur, devel, .. } => *final(self)
                    == (UpdatesState::Running {
                    last_checked_online,
                    pacman,
                    aur,
                    devel,
                    refreshing: true,
                }),
            },
    {
        let mut prev = UpdatesState::Init;
        std::mem::swap(&mut prev, self);
        *self = match prev {
            UpdatesState::Init => UpdatesState::Init,
            UpdatesState::Running { last_checked_online, pacman, aur, devel, .. } => {
                UpdatesState::Running { last_checked_online, pacman, aur, devel, refreshing: true }
            },
        };
    }

    /// Takes in the results of an online pass that ended at `update_time`.
    pub fn handle_online_updates(&mut self, updates: OnlineUpdates, update_time: i64)
        ensures
            ({
                match *old(self) {
                    UpdatesState::Init => *final(self) == (UpdatesState::Running {
                        last_checked_online: update_time,
                        pacman: after_result(BasicResultWithHistory::Error, updates.pacman),
                        aur: after_result(BasicResultWithHistory::Error, updates.aur),
                        devel: after_result(BasicResultWithHistory::Error, updates.devel),
                        refreshing: false,
                    }),
                    UpdatesState::Running { pacman, aur, devel, .. } => *final(self)
                        == (UpdatesState::Running {
                        last_checked_online: update_time,
                        pacman: after_result(pacman, updates.pacman),
                        aur: after_result(aur, updates.aur),
                        devel: after_result(devel, updates.devel),
                        refreshing: false,
                    }),
                }
            }),
    {
        let mut prev = UpdatesState::Init;
        std::mem::swap(&mut prev, self);
        let OnlineUpdates { pacman, aur, devel } = updates;
        *self = match prev {
            UpdatesState::Init => UpdatesState::Running {
                last_checked_online: update_time,
                pacman: BasicResultWithHistory::new_from_result(pacman),
                aur: BasicResultWithHistory::new_from_result(aur),
                devel: BasicResultWithHistory::new_from_result(devel),
                refreshing: false,
            },
            UpdatesState::Running { pacman: prev_pacman, aur: prev_aur, devel: prev_devel, .. } => {
                UpdatesState::Running {
                    last_checked_online: update_time,
                    pacman: prev_pacman.replace_with_result_preserving_history(pacman),
                    aur: prev_aur.replace_with_result_preserving_history(aur),
                    devel: prev_devel.replace_with_result_preserving_history(devel),
                    refreshing: false,
                }
            },
        };
    }

    /// Takes in the results of an offline pass; a source that was not
    /// checked keeps its state, and before the first online pass nothing
    /// changes.
    pub fn handle_offline_updates(&mut self, updates: OfflineUpdates)
        ensures
            match *old(self) {
                UpdatesState::Init => *final(self) is Init,
                UpdatesState::Running { last_checked_online, pacman, aur, devel, refreshing } =>
                    *final(self) == (UpdatesState::Running {
                    last_checked_online,
                    pacman: after_option_result(pacman, updates.pacman),
                    aur: after_option_result(aur, updates.aur),
                    devel: after_option_result(devel, updates.devel),
                    refreshing,
                }),
            },
    {
        let mut prev = UpdatesState::Init;
        std::mem::swap(&mut prev, self);
        let OfflineUpdates { pacman, aur, devel } = updates;
        *self = match prev {
            UpdatesState::Init => UpdatesState::Init,
            UpdatesState::Running {
                last_checked_online,
                pacman: prev_pacman,
                aur: prev_aur,
                devel: prev_devel,
                refreshing,
            } => UpdatesState::Running {
                last_checked_online,
                pacman: prev_pacman.replace_with_option_result_preserving_history(pacman),
                aur: prev_aur.replace_with_option_result_preserving_history(aur),
                devel: prev_devel.replace_with_option_result_preserving_history(devel),
                refreshing,
            },
        };
    }
}

} // verus!
