//! Which events the user is told of.

use vstd::prelude::*;

verus! {

#[derive(Debug, Clone, Copy, PartialEq, Eq, Structural)]
pub struct NotificationsConfig {
    pub enabled: bool,
    pub on_download_accepted: bool,
    pub on_download_error: bool,
    pub on_download_complete: bool,
}

impl Default for NotificationsConfig {
    fn default() -> (r: NotificationsConfig)
        ensures
            r == (NotificationsConfig {
                enabled: true,
                on_download_accepted: true,
                on_download_error: true,
                on_download_complete: true,
            }),
    {
        NotificationsConfig {
            enabled: true,
            on_download_accepted: true,
            on_download_error: true,
            on_download_complete: true,
        }
    }
}

} // verus!
