use neet::bridge::{
    decode_inbound, drain_capture_events, encode_outbound, publish_step, resolve_announcements,
    session_outcome, subscribe_step,
};
use neet::WaitResolution;
use neet::{
    AnnounceEvent, CaptureEvent, MediaFrame, PublishAction, RaceWinner, Role, SessionError,
    SubscribeAction,
};

fn frame(payload: &[u8]) -> MediaFrame {
    MediaFrame {
        payload: payload.to_vec(),
        sample_count: None,
        skipped_frames: None,
        skipped_samples: None,
    }
}

#[test]
fn roles_resolve_complementary_paths() {
    assert_eq!(Role::Listener.publish_path(), "listener");
    assert_eq!(Role::Listener.subscribe_path(), "caller");
    assert_eq!(Role::Caller.publish_path(), "caller");
    assert_eq!(Role::Caller.subscribe_path(), "listener");
    for role in [Role::Listener, Role::Caller] {
        assert_ne!(role.publish_path(), role.subscribe_path());
        assert_eq!(role.local_label(), role.publish_path());
        assert_eq!(role.remote_label(), role.subscribe_path());
    }
}

#[test]
fn publish_step_forwards_frames_and_finishes_on_close() {
    match publish_step(CaptureEvent::Frame(frame(b"pcm"))) {
        PublishAction::Forward(f) => assert_eq!(f.payload, b"pcm".to_vec()),
        _ => panic!("frame must be forwarded"),
    }
    assert!(matches!(publish_step(CaptureEvent::Closed), PublishAction::Finish));
    assert!(matches!(publish_step(CaptureEvent::Lagged(7)), PublishAction::Skip(7)));
}

#[test]
fn capture_drain_stops_cleanly_at_close() {
    let events = vec![
        CaptureEvent::Frame(frame(b"a")),
        CaptureEvent::Lagged(3),
        CaptureEvent::Frame(frame(b"b")),
        CaptureEvent::Closed,
        CaptureEvent::Frame(frame(b"never")),
    ];
    let (delivered, completed) = drain_capture_events(&events);
    assert!(completed);
    assert_eq!(delivered.len(), 2);
    assert_eq!(delivered[0].payload, b"a".to_vec());
    assert_eq!(delivered[1].payload, b"b".to_vec());
}

#[test]
fn lag_does_not_terminate_the_publish_run() {
    let events = vec![
        CaptureEvent::Lagged(5),
        CaptureEvent::Lagged(2),
        CaptureEvent::Frame(frame(b"x")),
        CaptureEvent::Frame(frame(b"y")),
    ];
    let (delivered, completed) = drain_capture_events(&events);
    assert!(!completed);
    assert_eq!(delivered.len(), 2);
    assert_eq!(delivered[0].payload, b"x".to_vec());
    assert_eq!(delivered[1].payload, b"y".to_vec());
}

#[test]
fn closing_twice_still_completes_once() {
    let events = vec![CaptureEvent::Closed, CaptureEvent::Closed];
    let (delivered, completed) = drain_capture_events(&events);
    assert!(completed);
    assert!(delivered.is_empty());
}

#[test]
fn unrelated_announcement_keeps_waiting() {
    let target = "caller".to_string();
    let removed = AnnounceEvent::Removed { path: "other".to_string() };
    assert_eq!(subscribe_step(&target, &removed), SubscribeAction::KeepWaiting);
    let unrelated = AnnounceEvent::Available { path: "lobby".to_string() };
    assert_eq!(subscribe_step(&target, &unrelated), SubscribeAction::KeepWaiting);
}

#[test]
fn matching_announcement_attaches() {
    let target = "caller".to_string();
    let event = AnnounceEvent::Available { path: "caller".to_string() };
    assert_eq!(subscribe_step(&target, &event), SubscribeAction::Attach);
}

#[test]
fn ended_announcement_stream_fails() {
    let target = "caller".to_string();
    assert_eq!(subscribe_step(&target, &AnnounceEvent::Ended), SubscribeAction::FailClosed);
}

#[test]
fn waiting_run_attaches_only_at_the_target() {
    let target = "caller".to_string();
    let unrelated = vec![
        AnnounceEvent::Available { path: "lobby".to_string() },
        AnnounceEvent::Removed { path: "lobby".to_string() },
        AnnounceEvent::Removed { path: "caller".to_string() },
    ];
    assert_eq!(resolve_announcements(&target, &unrelated), WaitResolution::StillWaiting);

    let mut attaching = unrelated.clone();
    attaching.push(AnnounceEvent::Available { path: "caller".to_string() });
    assert_eq!(resolve_announcements(&target, &attaching), WaitResolution::Attached);

    let mut ending = unrelated;
    ending.push(AnnounceEvent::Ended);
    ending.push(AnnounceEvent::Available { path: "caller".to_string() });
    assert_eq!(resolve_announcements(&target, &ending), WaitResolution::Failed);
}

#[test]
fn framing_roundtrip_preserves_payload() {
    let sent = MediaFrame {
        payload: b"hello".to_vec(),
        sample_count: Some(480),
        skipped_frames: Some(1),
        skipped_samples: Some(960),
    };
    let group = encode_outbound(&sent);
    assert_eq!(group.frames.len(), 1);
    assert_eq!(group.frames[0].declared_size, 5);
    let got = decode_inbound(group);
    assert_eq!(got.len(), 1);
    assert_eq!(got[0].payload, b"hello".to_vec());
    assert_eq!(got[0].sample_count, None);
    assert_eq!(got[0].skipped_frames, None);
    assert_eq!(got[0].skipped_samples, None);
}

#[test]
fn closed_signal_ends_the_session() {
    assert_eq!(session_outcome(RaceWinner::Closed), Err(SessionError::SessionClosed));
}

#[test]
fn loop_results_surface_unchanged() {
    assert_eq!(session_outcome(RaceWinner::PublishDone(Ok(()))), Ok(()));
    assert_eq!(
        session_outcome(RaceWinner::PublishDone(Err(SessionError::PublishFailed))),
        Err(SessionError::PublishFailed)
    );
    assert_eq!(
        session_outcome(RaceWinner::SubscribeDone(Err(SessionError::SubscribeFailed))),
        Err(SessionError::SubscribeFailed)
    );
    assert_eq!(
        session_outcome(RaceWinner::SubscribeDone(Err(
            SessionError::AnnouncementStreamClosed
        ))),
        Err(SessionError::AnnouncementStreamClosed)
    );
}

#[test]
fn audio_config_carries_selection_over() {
    let args = neet::AudioArgs {
        input_device: Some("mic".to_string()),
        output_device: None,
        disable_processing: true,
    };
    let config = neet::build_audio_config(&args);
    assert_eq!(config.input_device, Some("mic".to_string()));
    assert_eq!(config.output_device, None);
    assert!(!config.processing_enabled);
}
