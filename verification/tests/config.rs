use alacrite::cli::{Args, Command, DEFAULT_UDP_PORT};
use alacrite::config::downloads::{DownloadsConfig, PrimaryDownloadsConfig};
use alacrite::config::notifications::NotificationsConfig;
use alacrite::config::sharing::SharingConfig;
use alacrite::config::CoreConfig;

#[test]
fn sharing_defaults() {
    assert_eq!(
        SharingConfig::default(),
        SharingConfig { max_queue_length: 10, confirmation_timeout_seconds: 10 }
    );
}

#[test]
fn notification_defaults() {
    assert_eq!(
        NotificationsConfig::default(),
        NotificationsConfig {
            enabled: true,
            on_download_accepted: true,
            on_download_error: true,
            on_download_complete: true,
        }
    );
}

#[test]
fn download_defaults() {
    let primary = PrimaryDownloadsConfig::with_directory("/home/u/Downloads".to_string());
    assert_eq!(
        primary,
        PrimaryDownloadsConfig {
            directory: "/home/u/Downloads".to_string(),
            directory_data_limit: None,
            data_limit: None,
            auto_download: false,
            partial_downloads: false,
            hash_checking: false,
        }
    );
    let downloads = DownloadsConfig::with_primary(primary.clone());
    assert_eq!(downloads.primary, primary);
    assert!(downloads.extension_configs.is_empty());
    assert!(downloads.allowed_extensions.is_empty());
    assert!(downloads.blocked_extensions.is_empty());
    assert_eq!(downloads.max_parallel_downloads, 1);
}

#[test]
fn core_defaults() {
    let core = CoreConfig::with_download_directory("/tmp/d".to_string());
    assert_eq!(core.downloads.primary.directory, "/tmp/d");
    assert_eq!(core.downloads.max_parallel_downloads, 1);
    assert_eq!(core.sharing, SharingConfig::default());
    assert_eq!(core.notifications, NotificationsConfig::default());
}

#[test]
fn arguments_are_plain_values() {
    assert_eq!(DEFAULT_UDP_PORT, 7070);
    let args = Args {
        log_level: "info".to_string(),
        config: None,
        udp_port: DEFAULT_UDP_PORT,
        command: Some(Command::Send { to: "beta".to_string(), paths: vec!["a.txt".to_string()] }),
    };
    assert_eq!(args.clone(), args);
    assert_ne!(Some(Command::Discover { verbose: false }), args.command);
    assert_ne!(Command::Peers { verbose: true }, Command::Peers { verbose: false });
}
