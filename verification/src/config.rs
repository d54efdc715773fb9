//! The settings of the program, as plain values with their defaults.
//!
//! Reading them from a file is left to the caller.

pub mod downloads;
pub mod notifications;
pub mod sharing;

use crate::config::downloads::{DownloadsConfig, PrimaryDownloadsConfig};
use crate::config::notifications::NotificationsConfig;
use crate::config::sharing::SharingConfig;
use vstd::prelude::*;

verus! {

/// All settings together.
#[derive(Debug, Clone, PartialEq, Eq)]
pub struct CoreConfig {
    pub downloads: DownloadsConfig,
    pub sharing: SharingConfig,
    pub notifications: NotificationsConfig,
}

impl CoreConfig {
    /// The default settings, with downloads going to the given directory.
    pub fn with_download_directory(directory: String) -> (r: CoreConfig)
        ensures
            r.downloads.primary == (PrimaryDownloadsConfig {
                directory,
                directory_data_limit: None,
                data_limit: None,
                auto_download: false,
                partial_downloads: false,
                hash_checking: false,
            }),
            r.downloads.extension_configs@.len() == 0,
            r.downloads.allowed_extensions@.len() == 0,
            r.downloads.blocked_extensions@.len() == 0,
            r.downloads.max_parallel_downloads == 1,
            r.sharing == (SharingConfig { max_queue_length: 10, confirmation_timeout_seconds: 10 }),
            r.notifications == (NotificationsConfig {
                enabled: true,
                on_download_accepted: true,
                on_download_error: true,
                on_download_complete: true,
            }),
    {
        CoreConfig {
            downloads: DownloadsConfig::with_primary(
                PrimaryDownloadsConfig::with_directory(directory),
            ),
            sharing: SharingConfig::default(),
            notifications: NotificationsConfig::default(),
        }
    }
}

} // verus!
