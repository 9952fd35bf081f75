//! The error taxonomy of the session bridge.

use vstd::prelude::*;

verus! {

/// Every fatal outcome a session can end with.
///
/// Configuration errors (`InvalidSession`, `InvalidBaseAddress`) are
/// surfaced before any network activity.  `PublishFailed` and
/// `SubscribeFailed` are transport failures fatal to their loop.
/// `AnnouncementStreamClosed` means the relay's directory stream ended
/// and the connection is unusable.  `SessionClosed` means the session
/// itself was torn down while the loops were still healthy.
#[derive(Debug, Clone, Copy, PartialEq, Eq, Structural)]
pub enum SessionError {
    InvalidSession,
    InvalidBaseAddress,
    PublishFailed,
    SubscribeFailed,
    AnnouncementStreamClosed,
    SessionClosed,
}

impl SessionError {
    /// A human-readable context line naming the failing phase.
    pub fn describe(self) -> (r: &'static str)
        ensures
            r@ == self.spec_describe(),
    {
        match self {
            SessionError::InvalidSession => "session id must not be empty",
            SessionError::InvalidBaseAddress => "relay address cannot be a base",
            SessionError::PublishFailed => "publish task failed",
            SessionError::SubscribeFailed => "subscribe task failed",
            SessionError::AnnouncementStreamClosed => "announcement stream closed",
            SessionError::SessionClosed => "session closed",
        }
    }

    /// What `describe` returns for each variant.
    pub open spec fn spec_describe(self) -> Seq<char> {
        match self {
            SessionError::InvalidSession => "session id must not be empty"@,
            SessionError::InvalidBaseAddress => "relay address cannot be a base"@,
            SessionError::PublishFailed => "publish task failed"@,
            SessionError::SubscribeFailed => "subscribe task failed"@,
            SessionError::AnnouncementStreamClosed => "announcement stream closed"@,
            SessionError::SessionClosed => "session closed"@,
        }
    }
}

} // verus!
