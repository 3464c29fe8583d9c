//! Update checking for Arch Linux packages: parsers for the package
//! manager's output, due-ness rules for each source of updates, a cache that
//! keeps the last good result across failures, and the polling schedule.
//!
//! The functions here decide; running the package manager's tools, asking
//! the AUR and the revision control tool, and waiting are left to the
//! caller, which hands their output in as plain values.
pub mod aur;
pub mod devel;
pub mod display;
pub mod due;
pub mod error;
pub mod history;
pub mod package;
pub mod pacman;
pub mod parse;
pub mod schedule;
pub mod source_repo;
pub mod state;
pub mod text;

pub use aur::{aur_updates_offline, aur_updates_online, parse_aur_packages, AurPackageInfo, AurUpdatesCache};
pub use devel::{
    devel_packages, devel_sources, devel_update, devel_updates_offline, devel_updates_online,
    head_identifier, DevelUpdatesCache, HeadQuery,
};
pub use display::{aur_url, pacman_url, AppIcon, Collapsed, CollapsibleType, Config, DisplayPackage};
pub use due::{aur_due_for_order, aur_update_due, devel_update_due};
pub use error::Error;
pub use history::{flatten_timeout, BasicResultWithHistory, TimeoutError};
pub use package::{AurUpdate, DevelUpdate, Package, PacmanUpdate, ParsedUpdate};
pub use pacman::{checkupdates_result, pacman_updates_offline, pacman_updates_online, parse_updates, PacmanUpdatesCache};
pub use parse::{parse_pacman_qm, parse_update, parse_url, parse_ver_and_rel, PackageUrl};
pub use schedule::{CheckType, Scheduler};
pub use source_repo::{add_sources_to_updates, parse_pacman_sl, parse_sources_list, SourceRepo, SourcesList};
pub use text::lines_of;
pub use state::{split_online_results, CacheState, OfflineUpdates, OnlineUpdates, UpdateType, UpdatesState};
