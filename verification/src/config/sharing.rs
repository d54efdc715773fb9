//! Settings of the confirmation queue.

use vstd::prelude::*;

verus! {

#[derive(Debug, Clone, Copy, PartialEq, Eq, Structural)]
pub struct SharingConfig {
    /// Maximum number of files in the confirmation queue.
    pub max_queue_length: u32,
    /// The user has to confirm a download within this time.
    pub confirmation_timeout_seconds: u32,
}

impl Default for SharingConfig {
    fn default() -> (r: SharingConfig)
        ensures
            r == (SharingConfig { max_queue_length: 10, confirmation_timeout_seconds: 10 }),
    {
        SharingConfig { max_queue_length: 10, confirmation_timeout_seconds: 10 }
    }
}

} // verus!
