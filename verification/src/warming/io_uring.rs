//! The submission-queue backend. It reads past the page cache or not at
//! all: without cache-bypassing reads it reports itself unsupported, and the
//! engine moves on.

use vstd::prelude::*;
use crate::warming::{Os, Platform, WarmError, WarmingOptions};
use crate::warming::direct::{DirectFamily, DirectSession, DirectState};
use crate::warming::sampling::{use_sparse, wants_sparse};

verus! {

/// Whether this backend takes the file on: it does where it is available, on
/// Linux, and cache-bypassing reads were asked for.
pub open spec fn accepts(options: WarmingOptions, platform: Platform) -> bool {
    platform.os == Os::Linux && platform.io_uring && options.use_direct_io
}

/// What setting up the ring came to: nothing stands in the way where it
/// succeeded, and the backend is not supported here where it failed.
pub open spec fn ring_outcome(started: bool) -> Result<(), WarmError> {
    if started {
        Ok(())
    } else {
        Err(WarmError::Unsupported)
    }
}

/// Classes the set-up of the ring, which the caller attempts before it
/// opens the file. A ring that cannot be set up is the soft signal on which
/// the engine moves on to the next backend, never a failure of the file.
pub fn ring_set_up(started: bool) -> (r: Result<(), WarmError>)
    ensures
        r == ring_outcome(started),
        r is Ok <==> started,
        r matches Err(e) ==> e == WarmError::Unsupported,
{
    if started {
        Ok(())
    } else {
        Err(WarmError::Unsupported)
    }
}

/// Starts a session that reads `file_size` bytes past the page cache: sampled
/// where the file is over a threshold above zero, whole otherwise.
pub fn warm_with_io_uring_direct(file_size: u64, sparse_threshold: u64) -> (session:
    DirectSession)
    ensures
        session@ == DirectState::start(
            DirectFamily::IoUring,
            file_size,
            wants_sparse(file_size, sparse_threshold),
        ),
{
    DirectSession::new(DirectFamily::IoUring, file_size, use_sparse(file_size, sparse_threshold))
}

/// Starts the backend's session for a file, or reports that the backend is
/// not supported.
pub fn warm_file(file_size: u64, options: &WarmingOptions, platform: &Platform) -> (r: Result<
    DirectSession,
    WarmError,
>)
    ensures
        r is Ok <==> accepts(*options, *platform),
        r matches Ok(session) ==> session@ == DirectState::start(
            DirectFamily::IoUring,
            file_size,
            wants_sparse(file_size, options.sparse_large_files),
        ),
        r matches Err(e) ==> e == WarmError::Unsupported,
{
    if platform.os == Os::Linux && platform.io_uring && options.use_direct_io {
        Ok(warm_with_io_uring_direct(file_size, options.sparse_large_files))
    } else {
        Err(WarmError::Unsupported)
    }
}

} // verus!
