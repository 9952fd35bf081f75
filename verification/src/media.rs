//! Local media plumbing: frames, codecs, and the broadcast-style
//! multi-subscriber track that carries frames between the capture,
//! playback and forwarding loops.
//!
//! The underlying channel is tokio's bounded broadcast channel: one
//! writer, independent read cursors, drop-oldest semantics with lag
//! reporting rather than blocking the writer.

use vstd::prelude::*;

use tokio::sync::broadcast::{Receiver, Sender};

verus! {

/// The kind of stream a track carries.
#[derive(Debug, Clone, Copy, PartialEq, Eq, Structural)]
pub enum TrackKind {
    Audio,
}

/// Channel layout of an Opus stream.
#[derive(Debug, Clone, Copy, PartialEq, Eq, Structural)]
pub enum OpusChannels {
    Mono,
    Stereo,
}

/// The codec a track's payloads are encoded with.
#[derive(Debug, Clone, Copy, PartialEq, Eq, Structural)]
#[non_exhaustive]
pub enum Codec {
    Opus { channels: OpusChannels },
}

/// One unit of encoded media: an opaque payload plus optional capture
/// metadata.  The receive side of a bridge leaves the metadata empty.
#[derive(Debug)]
pub struct MediaFrame {
    pub payload: Vec<u8>,
    pub sample_count: Option<u32>,
    pub skipped_frames: Option<u32>,
    pub skipped_samples: Option<u32>,
}

impl Clone for MediaFrame {
    /// A duplicate carrying the same payload bytes and metadata.
    fn clone(&self) -> (r: Self)
        ensures
            r.payload@ == self.payload@,
            r.sample_count == self.sample_count,
            r.skipped_frames == self.skipped_frames,
            r.skipped_samples == self.skipped_samples,
    {
        let r = MediaFrame {
            payload: self.payload.clone(),
            sample_count: self.sample_count,
            skipped_frames: self.skipped_frames,
            skipped_samples: self.skipped_samples,
        };
        proof {
            assert(r.payload@ =~= self.payload@);
        }
        r
    }
}

/// What one poll of a track's cursor can yield: the next frame, an
/// empty channel, a permanently closed channel, or a report of how
/// many frames this cursor skipped after lagging behind.
#[derive(Debug)]
pub enum RecvOutcome {
    Frame(MediaFrame),
    Empty,
    Closed,
    Lagged(u64),
}

#[verifier::external_type_specification]
#[verifier::external_body]
#[verifier::reject_recursive_types(T)]
pub struct ExBroadcastSender<T>(Sender<T>);

#[verifier::external_type_specification]
#[verifier::external_body]
#[verifier::reject_recursive_types(T)]
pub struct ExBroadcastReceiver<T>(Receiver<T>);

/// Relies on tokio's broadcast `channel`: a bounded multi-subscriber
/// channel; it panics only on a zero capacity or one above half the
/// `usize` range.
#[verifier::external_body]
fn media_channel(capacity: usize) -> (r: (Sender<MediaFrame>, Receiver<MediaFrame>))
    requires
        1 <= capacity <= usize::MAX / 2,
{
    tokio::sync::broadcast::channel(capacity)
}

/// Relies on tokio's broadcast `Sender::send`: queues the value for
/// every active cursor and reports whether any receiver existed.
#[verifier::external_body]
fn chan_send(sender: &Sender<MediaFrame>, frame: MediaFrame) -> (delivered: bool) {
    sender.send(frame).is_ok()
}

/// Relies on tokio's broadcast `Receiver::try_recv`: yields the next
/// pending value, or reports the channel empty, closed, or how many
/// values this cursor skipped after lagging.
#[verifier::external_body]
fn chan_try_recv(receiver: &mut Receiver<MediaFrame>) -> (out: RecvOutcome) {
    match receiver.try_recv() {
        Ok(frame) => RecvOutcome::Frame(frame),
        Err(tokio::sync::broadcast::error::TryRecvError::Empty) => RecvOutcome::Empty,
        Err(tokio::sync::broadcast::error::TryRecvError::Closed) => RecvOutcome::Closed,
        Err(tokio::sync::broadcast::error::TryRecvError::Lagged(n)) => RecvOutcome::Lagged(n),
    }
}

/// Relies on tokio's broadcast `Receiver::resubscribe`: a fresh,
/// independent cursor over the same underlying channel, starting at
/// the current tail.
#[verifier::external_body]
fn chan_resubscribe(receiver: &Receiver<MediaFrame>) -> (out: Receiver<MediaFrame>) {
    receiver.resubscribe()
}

/// A cloneable handle onto a broadcast stream of media frames, tagged
/// with its codec and kind.  Cloning creates an independent read
/// cursor over the same stream; it does not duplicate data.
#[derive(Debug)]
pub struct MediaTrack {
    pub receiver: Receiver<MediaFrame>,
    pub codec: Codec,
    pub kind: TrackKind,
}

impl Clone for MediaTrack {
    /// An independent read cursor over the same stream, with the same
    /// codec and kind.
    fn clone(&self) -> (r: Self)
        ensures
            r.codec == self.codec,
            r.kind == self.kind,
    {
        MediaTrack {
            receiver: chan_resubscribe(&self.receiver),
            codec: self.codec,
            kind: self.kind,
        }
    }
}

impl MediaTrack {
    /// Wraps a channel cursor as a media track.
    pub fn new(receiver: Receiver<MediaFrame>, codec: Codec, kind: TrackKind) -> (r: MediaTrack)
        ensures
            r.codec == codec,
            r.kind == kind,
    {
        MediaTrack { receiver, codec, kind }
    }

    /// The codec this track's payloads are encoded with.
    pub fn codec(&self) -> (r: Codec)
        ensures
            r == self.codec,
    {
        self.codec
    }

    /// The kind of stream this track carries.
    pub fn kind(&self) -> (r: TrackKind)
        ensures
            r == self.kind,
    {
        self.kind
    }

    /// Polls the cursor without blocking.
    pub fn try_recv(&mut self) -> (out: RecvOutcome)
        ensures
            final(self).codec == old(self).codec,
            final(self).kind == old(self).kind,
    {
        chan_try_recv(&mut self.receiver)
    }

    /// Surrenders the underlying cursor, for a caller that must await
    /// frames on its own runtime.
    pub fn into_receiver(self) -> (r: Receiver<MediaFrame>)
        ensures
            r == self.receiver,
    {
        self.receiver
    }
}

/// Creates a bounded local media stream: the write end and a track
/// wrapping its first read cursor.
pub fn create_local_media(capacity: usize, codec: Codec, kind: TrackKind) -> (r: (
    Sender<MediaFrame>,
    MediaTrack,
))
    requires
        1 <= capacity <= usize::MAX / 2,
    ensures
        r.1.codec == codec,
        r.1.kind == kind,
{
    let (sender, receiver) = media_channel(capacity);
    (sender, MediaTrack::new(receiver, codec, kind))
}

/// Queues one frame for every active cursor of a local media stream;
/// reports whether any cursor existed to receive it.
pub fn send_frame(sender: &Sender<MediaFrame>, frame: MediaFrame) -> (delivered: bool) {
    chan_send(sender, frame)
}

} // verus!
