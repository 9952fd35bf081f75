//! A verified session bridge for two-party voice calls over a
//! publish/subscribe media relay.
//!
//! The crate owns the logic of the bridge: resolving role-based
//! rendezvous paths, extending a relay address with the session
//! identifier, the decisions of the publish and subscribe forwarding
//! loops, and the supervisor's mapping of race outcomes to session
//! results.  Device capture/playback and the network runtime live
//! outside the library and hand it plain values.

pub mod address;
pub mod audio;
pub mod bridge;
pub mod error;
pub mod media;
pub mod roles;
pub mod transport;

pub use address::RelayAddress;
pub use audio::{build_audio_config, AudioArgs, AudioConfig};
pub use bridge::{
    AnnounceEvent, CaptureEvent, MoqOptions, PublishAction, RaceWinner, SubscribeAction,
    WaitResolution,
};
pub use error::SessionError;
pub use media::{Codec, MediaFrame, MediaTrack, OpusChannels, RecvOutcome, TrackKind};
pub use roles::Role;
