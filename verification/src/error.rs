//! The kinds of failure a run can end with.

use vstd::prelude::*;

verus! {

/// Which operation failed. Every failure is fatal to the run; the kind only
/// tells a caller where it happened.
#[derive(Clone, Copy, Debug, PartialEq, Eq, Structural)]
pub enum DispatchError {
    /// The configuration was missing or malformed.
    Config,
    /// The gateway connection could not be kept.
    Connection,
    /// Listing the server's channels, or resolving one channel's kind, failed.
    Listing,
    /// Creating a channel failed.
    Creation,
    /// Sending a message failed.
    Send,
}

} // verus!
