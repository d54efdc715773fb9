//! Where downloads go and what is accepted.
//!
//! The download directory depends on the machine and the user, so the
//! caller finds it and hands it in.

use vstd::prelude::*;

verus! {

/// The settings for files whose extension has no settings of its own.
#[derive(Debug, Clone, PartialEq, Eq)]
pub struct PrimaryDownloadsConfig {
    /// Directory to store files in.
    pub directory: String,
    /// Maximum size of the directory, in bytes.
    pub directory_data_limit: Option<u64>,
    /// Maximum size of one file, in bytes.
    pub data_limit: Option<u64>,
    /// Whether files below the limit are downloaded without asking.
    pub auto_download: bool,
    /// Whether a file may be downloaded in parts.
    pub partial_downloads: bool,
    /// Whether the hash of a file is checked after the download.
    pub hash_checking: bool,
}

/// The settings for the files of one extension.
#[derive(Debug, Clone, PartialEq, Eq)]
pub struct ExtensionConfig {
    /// Directory to store files of this extension in.
    pub directory: String,
    /// Maximum size of the directory, in bytes.
    pub directory_data_limit: Option<u64>,
    /// Maximum size of one file of this extension, in bytes.
    pub file_data_limit: Option<u64>,
    /// Whether files below the limit are downloaded without asking.
    pub auto_download: bool,
    /// Whether a file may be downloaded in parts.
    pub partial_downloads: bool,
    /// Whether the hash of a file is checked after the download.
    pub hash_checking: bool,
}

#[derive(Debug, Clone, PartialEq, Eq)]
pub struct DownloadsConfig {
    pub primary: PrimaryDownloadsConfig,
    /// The settings of single extensions, each with its extension (`zip`,
    /// `jpeg`, `dmg`).
    pub extension_configs: Vec<(String, ExtensionConfig)>,
    pub allowed_extensions: Vec<String>,
    pub blocked_extensions: Vec<String>,
    /// Maximum number of downloads that run at a time.
    pub max_parallel_downloads: u32,
}

impl PrimaryDownloadsConfig {
    /// The default settings for a download directory: no limits, and
    /// nothing is downloaded, split or checked without being asked for.
    pub fn with_directory(directory: String) -> (r: PrimaryDownloadsConfig)
        ensures
            r == (PrimaryDownloadsConfig {
                directory,
                directory_data_limit: None,
                data_limit: None,
                auto_download: false,
                partial_downloads: false,
                hash_checking: false,
            }),
    {
        PrimaryDownloadsConfig {
            directory,
            directory_data_limit: None,
            data_limit: None,
            auto_download: false,
            partial_downloads: false,
            hash_checking: false,
        }
    }
}

impl DownloadsConfig {
    /// The default settings around the given primary ones: no extension has
    /// settings of its own, none is allowed or blocked by name, and one
    /// download runs at a time.
    pub fn with_primary(primary: PrimaryDownloadsConfig) -> (r: DownloadsConfig)
        ensures
            r.primary == primary,
            r.extension_configs@.len() == 0,
            r.allowed_extensions@.len() == 0,
            r.blocked_extensions@.len() == 0,
            r.max_parallel_downloads == 1,
    {
        DownloadsConfig {
            primary,
            extension_configs: Vec::new(),
            allowed_extensions: Vec::new(),
            blocked_extensions: Vec::new(),
            max_parallel_downloads: 1,
        }
    }
}

} // verus!
