//! The transport boundary: the relay's broadcast directory, tracks and
//! grouped frame delivery, reached through trusted declarations of the
//! pub/sub transport crate.
//!
//! The synchronous transport calls the bridge makes — producing the
//! origin pair, publishing the local broadcast, framing outbound
//! payloads, probing and attaching to the remote broadcast — live
//! here; the awaits (announcements, incoming groups) are driven by the
//! caller's runtime, which hands their outcomes back as plain events.

use vstd::prelude::*;

use crate::error::SessionError;
use crate::media::MediaFrame;
use crate::roles::Role;

verus! {

/// The track every session publishes and subscribes by fixed name.
pub const AUDIO_TRACK_NAME: &'static str = "audio";

#[verifier::external_type_specification]
#[verifier::external_body]
pub struct ExOrigin(moq_lite::Origin);

#[verifier::external_type_specification]
#[verifier::external_body]
pub struct ExOriginProducer(moq_lite::OriginProducer);

#[verifier::external_type_specification]
#[verifier::external_body]
pub struct ExOriginConsumer(moq_lite::OriginConsumer);

#[verifier::external_type_specification]
#[verifier::external_body]
pub struct ExBroadcast(moq_lite::Broadcast);

#[verifier::external_type_specification]
#[verifier::external_body]
pub struct ExBroadcastProducer(moq_lite::BroadcastProducer);

#[verifier::external_type_specification]
#[verifier::external_body]
pub struct ExBroadcastConsumer(moq_lite::BroadcastConsumer);

#[verifier::external_type_specification]
#[verifier::external_body]
pub struct ExTrackProducer(moq_lite::TrackProducer);

#[verifier::external_type_specification]
#[verifier::external_body]
pub struct ExTrackConsumer(moq_lite::TrackConsumer);

#[verifier::external_type_specification]
#[verifier::external_body]
pub struct ExGroupProducer(moq_lite::GroupProducer);

#[verifier::external_type_specification]
#[verifier::external_body]
pub struct ExMoqError(moq_lite::Error);

/// Relies on the transport's `Origin::random`: a fresh origin identity
/// for this process.
#[verifier::external_body]
fn origin_random() -> (r: moq_lite::Origin) {
    moq_lite::Origin::random()
}

/// Relies on the transport's `Origin::produce`: the write end of a new
/// broadcast directory carrying this identity.
#[verifier::external_body]
fn origin_produce(origin: moq_lite::Origin) -> (r: moq_lite::OriginProducer) {
    origin.produce()
}

/// Relies on the transport's `OriginProducer::consume`: a read handle
/// over the same directory.
#[verifier::external_body]
fn origin_consume(producer: &moq_lite::OriginProducer) -> (r: moq_lite::OriginConsumer) {
    producer.consume()
}

/// Relies on the transport's `OriginProducer::publish_broadcast`:
/// registers the broadcast under the path and reports whether it was
/// accepted for publication.
#[verifier::external_body]
fn origin_publish(
    producer: &moq_lite::OriginProducer,
    path: &str,
    broadcast: moq_lite::BroadcastConsumer,
) -> (accepted: bool) {
    producer.publish_broadcast(path, broadcast)
}

/// Relies on the transport's `OriginConsumer::get_broadcast`: a direct
/// lookup of the path in the directory.
#[verifier::external_body]
fn origin_get_broadcast(
    consumer: &moq_lite::OriginConsumer,
    path: &str,
) -> (r: Option<moq_lite::BroadcastConsumer>) {
    consumer.get_broadcast(path)
}

/// Relies on the transport's `Broadcast::new`: a broadcast with an
/// empty hop chain.
#[verifier::external_body]
fn broadcast_new() -> (r: moq_lite::Broadcast) {
    moq_lite::Broadcast::new()
}

/// Relies on the transport's `Broadcast::produce`: the write end of
/// the broadcast.
#[verifier::external_body]
fn broadcast_produce(broadcast: moq_lite::Broadcast) -> (r: moq_lite::BroadcastProducer) {
    broadcast.produce()
}

/// Relies on the transport's `BroadcastProducer::consume`: a read
/// handle over the same broadcast.
#[verifier::external_body]
fn broadcast_consume(producer: &moq_lite::BroadcastProducer) -> (r: moq_lite::BroadcastConsumer) {
    producer.consume()
}

/// Relies on the transport's `BroadcastProducer::create_track`:
/// produces the named track inside the broadcast, failing on a
/// duplicate name or an aborted broadcast.
#[verifier::external_body]
fn broadcast_create_track(
    producer: &mut moq_lite::BroadcastProducer,
    name: &str,
    priority: u8,
) -> (r: Result<moq_lite::TrackProducer, moq_lite::Error>) {
    producer.create_track(moq_lite::Track { name: name.to_string(), priority })
}

/// Relies on the transport's `BroadcastConsumer::subscribe_track`: a
/// consumer for the named track within the broadcast.
#[verifier::external_body]
fn broadcast_subscribe_track(
    consumer: &moq_lite::BroadcastConsumer,
    name: &str,
    priority: u8,
) -> (r: Result<moq_lite::TrackConsumer, moq_lite::Error>) {
    consumer.subscribe_track(&moq_lite::Track { name: name.to_string(), priority })
}

/// Relies on the transport's `TrackProducer::append_group`: opens the
/// next group in sequence, failing once the track is finished.
#[verifier::external_body]
fn track_append_group(
    producer: &mut moq_lite::TrackProducer,
) -> (r: Result<moq_lite::GroupProducer, moq_lite::Error>) {
    producer.append_group()
}

/// Relies on the transport's `GroupProducer::write_frame`: writes the
/// payload as one whole frame, its declared size the payload length.
#[verifier::external_body]
fn group_write_frame(
    group: &mut moq_lite::GroupProducer,
    payload: Vec<u8>,
) -> (r: Result<(), moq_lite::Error>) {
    group.write_frame(payload)
}

/// Relies on the transport's `GroupProducer::finish`: closes the group
/// after its last frame.
#[verifier::external_body]
fn group_finish(group: &mut moq_lite::GroupProducer) -> (r: Result<(), moq_lite::Error>) {
    group.finish()
}

/// The write end of the session's broadcast directory and a read
/// handle over it, as the session hands them to the transport.
pub struct OriginPair {
    pub producer: moq_lite::OriginProducer,
    pub consumer: moq_lite::OriginConsumer,
}

/// Produces a fresh directory pair for one side of the session.
pub fn produce_origin_pair() -> OriginPair {
    let producer = origin_produce(origin_random());
    let consumer = origin_consume(&producer);
    OriginPair { producer, consumer }
}

/// What the publish loop holds while it runs: the broadcast's write
/// end, kept alive for the whole session, and its audio track.
pub struct PublishHandles {
    pub broadcast: moq_lite::BroadcastProducer,
    pub track: moq_lite::TrackProducer,
}

/// Creates the local broadcast with its audio track and publishes it
/// in the directory under the role's own path.  Every failure of the
/// transport surfaces as `PublishFailed`.
pub fn setup_publish(origin: &moq_lite::OriginProducer, role: Role) -> (r: Result<
    PublishHandles,
    SessionError,
>)
    ensures
        r is Err ==> r == Err::<PublishHandles, SessionError>(SessionError::PublishFailed),
{
    let mut broadcast = broadcast_produce(broadcast_new());
    let track = match broadcast_create_track(&mut broadcast, AUDIO_TRACK_NAME, 0) {
        Ok(track) => track,
        Err(_) => {
            return Err(SessionError::PublishFailed);
        },
    };
    let consumer = broadcast_consume(&broadcast);
    let _accepted = origin_publish(origin, role.publish_path(), consumer);
    Ok(PublishHandles { broadcast, track })
}

/// Writes one media frame onto the transport track as exactly one
/// group holding exactly one frame, the frame's declared size fixed to
/// the payload length.  Every failure of the transport surfaces as
/// `PublishFailed`.
pub fn write_frame_group(track: &mut moq_lite::TrackProducer, frame: &MediaFrame) -> (r: Result<
    (),
    SessionError,
>)
    ensures
        r is Err ==> r == Err::<(), SessionError>(SessionError::PublishFailed),
{
    let mut group = match track_append_group(track) {
        Ok(group) => group,
        Err(_) => {
            return Err(SessionError::PublishFailed);
        },
    };
    if group_write_frame(&mut group, frame.payload.clone()).is_err() {
        return Err(SessionError::PublishFailed);
    }
    if group_finish(&mut group).is_err() {
        return Err(SessionError::PublishFailed);
    }
    Ok(())
}

/// Looks the subscribe path up directly in the directory, the probing
/// step before the loop falls back to announcements.
pub fn probe_broadcast(consumer: &moq_lite::OriginConsumer, path: &str) -> Option<
    moq_lite::BroadcastConsumer,
> {
    origin_get_broadcast(consumer, path)
}

/// Attaches to the audio track of a matched remote broadcast.  Every
/// failure of the transport surfaces as `SubscribeFailed`.
pub fn attach_audio_track(broadcast: &moq_lite::BroadcastConsumer) -> (r: Result<
    moq_lite::TrackConsumer,
    SessionError,
>)
    ensures
        r is Err ==> r == Err::<moq_lite::TrackConsumer, SessionError>(
            SessionError::SubscribeFailed,
        ),
{
    match broadcast_subscribe_track(broadcast, AUDIO_TRACK_NAME, 0) {
        Ok(track) => Ok(track),
        Err(_) => Err(SessionError::SubscribeFailed),
    }
}

} // verus!
