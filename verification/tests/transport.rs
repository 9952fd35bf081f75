use neet::media::{create_local_media, send_frame};
use neet::transport::{
    attach_audio_track, probe_broadcast, produce_origin_pair, setup_publish, write_frame_group,
};
use neet::{Codec, MediaFrame, OpusChannels, RecvOutcome, Role, TrackKind};

fn frame(payload: &[u8]) -> MediaFrame {
    MediaFrame {
        payload: payload.to_vec(),
        sample_count: None,
        skipped_frames: None,
        skipped_samples: None,
    }
}

fn stereo_opus() -> Codec {
    Codec::Opus { channels: OpusChannels::Stereo }
}

fn runtime() -> tokio::runtime::Runtime {
    tokio::runtime::Builder::new_current_thread().enable_all().build().unwrap()
}

#[test]
fn forward_roundtrip_delivers_payload() {
    let (sender, mut media_track) = create_local_media(8, stereo_opus(), TrackKind::Audio);
    assert!(send_frame(&sender, frame(b"hello")));
    drop(sender);

    let track = moq_lite::Track { name: "audio".to_string(), priority: 0 };
    let mut producer = track.produce();
    let mut consumer = producer.consume();

    loop {
        match media_track.try_recv() {
            RecvOutcome::Frame(f) => write_frame_group(&mut producer, &f).unwrap(),
            RecvOutcome::Closed | RecvOutcome::Empty => break,
            RecvOutcome::Lagged(_) => continue,
        }
    }
    producer.finish().unwrap();

    let payload = runtime().block_on(async move {
        let mut group = consumer.next_group().await.unwrap().unwrap();
        group.read_frame().await.unwrap().unwrap()
    });
    assert_eq!(payload.as_ref(), b"hello");
}

#[test]
fn published_broadcast_is_found_and_attached() {
    let payload = runtime().block_on(async move {
        let pair = produce_origin_pair();
        let mut handles = setup_publish(&pair.producer, Role::Caller).unwrap();

        let broadcast = probe_broadcast(&pair.consumer, Role::Listener.subscribe_path())
            .expect("published broadcast must be discoverable at the complementary path");
        let mut track_consumer = attach_audio_track(&broadcast).unwrap();

        write_frame_group(&mut handles.track, &frame(b"hi")).unwrap();

        let mut group = track_consumer.next_group().await.unwrap().unwrap();
        group.read_frame().await.unwrap().unwrap()
    });
    assert_eq!(payload.as_ref(), b"hi");
}

#[test]
fn unpublished_path_is_not_found() {
    let pair = produce_origin_pair();
    assert!(probe_broadcast(&pair.consumer, "caller").is_none());
}

#[test]
fn local_track_delivers_then_closes() {
    let (sender, mut track) = create_local_media(8, stereo_opus(), TrackKind::Audio);
    assert_eq!(track.codec(), stereo_opus());
    assert_eq!(track.kind(), TrackKind::Audio);
    assert!(send_frame(&sender, frame(b"one")));
    drop(sender);
    match track.try_recv() {
        RecvOutcome::Frame(f) => assert_eq!(f.payload, b"one".to_vec()),
        _ => panic!("first poll must yield the frame"),
    }
    assert!(matches!(track.try_recv(), RecvOutcome::Closed));
}

#[test]
fn cloned_track_is_an_independent_cursor() {
    let (sender, mut track) = create_local_media(8, stereo_opus(), TrackKind::Audio);
    let mut cursor = track.clone();
    assert_eq!(cursor.codec(), stereo_opus());
    assert!(send_frame(&sender, frame(b"shared")));
    match track.try_recv() {
        RecvOutcome::Frame(f) => assert_eq!(f.payload, b"shared".to_vec()),
        _ => panic!("original cursor must yield the frame"),
    }
    match cursor.try_recv() {
        RecvOutcome::Frame(f) => assert_eq!(f.payload, b"shared".to_vec()),
        _ => panic!("cloned cursor must yield the frame independently"),
    }
}

#[test]
fn slow_cursor_lags_and_recovers() {
    let (sender, mut track) = create_local_media(1, stereo_opus(), TrackKind::Audio);
    assert!(send_frame(&sender, frame(b"a")));
    assert!(send_frame(&sender, frame(b"b")));
    assert!(send_frame(&sender, frame(b"c")));
    assert!(matches!(track.try_recv(), RecvOutcome::Lagged(2)));
    match track.try_recv() {
        RecvOutcome::Frame(f) => assert_eq!(f.payload, b"c".to_vec()),
        _ => panic!("the cursor must recover at the newest retained frame"),
    }
    assert!(matches!(track.try_recv(), RecvOutcome::Empty));
}

#[test]
fn send_without_cursor_reports_no_delivery() {
    let (sender, track) = create_local_media(4, stereo_opus(), TrackKind::Audio);
    drop(track);
    assert!(!send_frame(&sender, frame(b"lost")));
}
