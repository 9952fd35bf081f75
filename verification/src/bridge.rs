//! The decision core of the session bridge.
//!
//! The forwarding loops suspend on awaits that only a runtime can
//! drive, so the loops' decisions are functions from plain events to
//! plain actions: the runtime performs the awaits and hands every
//! outcome back as an event.  Everything the bridge decides — what a
//! capture event does to the publish loop, when the subscribe loop
//! attaches, how a race outcome ends the session — is verified here.

use vstd::prelude::*;

use crate::address::RelayAddress;
use crate::error::SessionError;
use crate::media::MediaFrame;
use crate::roles::Role;

verus! {

/// Everything a session needs to rendezvous: the relay address, the
/// shared session identifier, and which side this process plays.
#[derive(Debug)]
pub struct MoqOptions {
    pub relay: RelayAddress,
    pub session_id: String,
    pub role: Role,
}

/// One outcome of awaiting the next frame on the outbound local track.
#[derive(Debug)]
pub enum CaptureEvent {
    /// The next captured frame.
    Frame(MediaFrame),
    /// The track is permanently closed: capture stopped.
    Closed,
    /// This cursor fell behind and skipped the given number of frames.
    Lagged(u64),
}

/// What the publish loop does with one capture event.  There is no
/// failing action: a capture event never aborts the loop.
#[derive(Debug)]
pub enum PublishAction {
    /// Write the frame as one framed group on the transport track.
    Forward(MediaFrame),
    /// Exit cleanly: a closed capture track is a normal termination.
    Finish,
    /// Log the skipped count and continue with the next frame.
    Skip(u64),
}

/// What the publish loop decides for each capture event.
pub open spec fn spec_publish_step(event: CaptureEvent) -> PublishAction {
    match event {
        CaptureEvent::Frame(frame) => PublishAction::Forward(frame),
        CaptureEvent::Closed => PublishAction::Finish,
        CaptureEvent::Lagged(skipped) => PublishAction::Skip(skipped),
    }
}

/// Decides the publish loop's next action: forward each frame, finish
/// cleanly when capture closes, and keep going after lag.
pub fn publish_step(event: CaptureEvent) -> (r: PublishAction)
    ensures
        r == spec_publish_step(event),
{
    match event {
        CaptureEvent::Frame(frame) => PublishAction::Forward(frame),
        CaptureEvent::Closed => PublishAction::Finish,
        CaptureEvent::Lagged(skipped) => PublishAction::Skip(skipped),
    }
}

/// What a whole run of the publish loop delivers over a sequence of
/// capture events: the forwarded payloads in capture order up to the
/// first close, and whether the run completed by seeing a close.
pub open spec fn spec_publish_run(events: Seq<CaptureEvent>) -> (Seq<Seq<u8>>, bool)
    decreases events.len(),
{
    if events.len() == 0 {
        (Seq::<Seq<u8>>::empty(), false)
    } else {
        match events[0] {
            CaptureEvent::Frame(frame) => {
                let rest = spec_publish_run(events.drop_first());
                (seq![frame.payload@] + rest.0, rest.1)
            },
            CaptureEvent::Closed => (Seq::<Seq<u8>>::empty(), true),
            CaptureEvent::Lagged(_) => spec_publish_run(events.drop_first()),
        }
    }
}

/// The payload views of a sequence of frames.
pub open spec fn payload_views(frames: Seq<MediaFrame>) -> Seq<Seq<u8>> {
    frames.map_values(|f: MediaFrame| f.payload@)
}

/// The synchronous core of the publish loop, run over a batch of
/// capture events: forwards every frame in order, stops cleanly at the
/// first close, and treats lag as transparent.
pub fn drain_capture_events(events: &Vec<CaptureEvent>) -> (r: (Vec<MediaFrame>, bool))
    ensures
        payload_views(r.0@) == spec_publish_run(events@).0,
        r.1 == spec_publish_run(events@).1,
{
    let mut delivered: Vec<MediaFrame> = Vec::new();
    let mut completed: bool = false;
    let mut i: usize = 0;
    proof {
        assert(events@.skip(0) =~= events@);
    }
    while i < events.len() && !completed
        invariant
            i <= events@.len(),
            !completed ==> spec_publish_run(events@).0 == payload_views(delivered@)
                + spec_publish_run(events@.skip(i as int)).0,
            !completed ==> spec_publish_run(events@).1 == spec_publish_run(
                events@.skip(i as int),
            ).1,
            completed ==> spec_publish_run(events@).0 == payload_views(delivered@),
            completed ==> spec_publish_run(events@).1,
        decreases events@.len() - i,
    {
        proof {
            assert(events@.skip(i as int)[0] == events@[i as int]);
            assert(events@.skip(i as int).drop_first() =~= events@.skip(i + 1 as int));
        }
        match &events[i] {
            CaptureEvent::Frame(frame) => {
                let ghost pre = delivered@;
                delivered.push(frame.clone());
                proof {
                    assert(payload_views(delivered@) =~= payload_views(pre).push(
                        events@[i as int]->Frame_0.payload@,
                    ));
                    assert(spec_publish_run(events@).0 =~= payload_views(delivered@)
                        + spec_publish_run(events@.skip(i + 1 as int)).0);
                }
            },
            CaptureEvent::Closed => {
                completed = true;
            },
            CaptureEvent::Lagged(_) => {
            },
        }
        i = i + 1;
    }
    proof {
        if !completed {
            assert(events@.skip(i as int) =~= events@.skip(events@.len() as int));
            assert(spec_publish_run(events@.skip(events@.len() as int)).0 =~= Seq::<
                Seq<u8>,
            >::empty());
        }
    }
    (delivered, completed)
}

/// Closing is clean and final: a run that starts at a closed track
/// delivers nothing, completes successfully, and whatever follows the
/// close — further closes included — changes neither.
pub proof fn lemma_publish_close_idempotent(events: Seq<CaptureEvent>)
    ensures
        spec_publish_run(seq![CaptureEvent::Closed] + events).0 == Seq::<Seq<u8>>::empty(),
        spec_publish_run(seq![CaptureEvent::Closed] + events).1,
{
    assert((seq![CaptureEvent::Closed] + events)[0] == CaptureEvent::Closed);
}

/// Lag is transparent: any number of lag reports before a frame is
/// delivered neither terminates the run nor disturbs the order of what
/// is delivered afterwards.
pub proof fn lemma_publish_lag_transparent(lags: Seq<CaptureEvent>, events: Seq<CaptureEvent>)
    requires
        forall|i: int| 0 <= i < lags.len() ==> lags[i] is Lagged,
    ensures
        spec_publish_run(lags + events) == spec_publish_run(events),
    decreases lags.len(),
{
    if lags.len() == 0 {
        assert(lags + events =~= events);
    } else {
        assert((lags + events)[0] == lags[0]);
        assert((lags + events).drop_first() =~= lags.drop_first() + events);
        lemma_publish_lag_transparent(lags.drop_first(), events);
    }
}

/// One event on the relay's announcement stream, as the subscribe loop
/// sees it.
#[derive(Debug, Clone)]
pub enum AnnounceEvent {
    /// A broadcast became available at the given path.
    Available { path: String },
    /// The broadcast at the given path went away.
    Removed { path: String },
    /// The announcement stream itself ended.
    Ended,
}

/// What the subscribe loop does with one announcement.
#[derive(Debug, PartialEq, Eq, Structural)]
pub enum SubscribeAction {
    /// The target broadcast is available: attach to it.
    Attach,
    /// Nothing relevant happened: keep waiting.
    KeepWaiting,
    /// The announcement stream ended: fail, the relay is unusable.
    FailClosed,
}

/// What the subscribe loop decides while waiting for its target path.
pub open spec fn spec_subscribe_step(target: Seq<char>, event: AnnounceEvent) -> SubscribeAction {
    match event {
        AnnounceEvent::Available { path } => if path@ == target {
            SubscribeAction::Attach
        } else {
            SubscribeAction::KeepWaiting
        },
        AnnounceEvent::Removed { .. } => SubscribeAction::KeepWaiting,
        AnnounceEvent::Ended => SubscribeAction::FailClosed,
    }
}

/// Decides the subscribe loop's next move: attach when the target path
/// is announced, keep waiting on anything unrelated, and fail when the
/// announcement stream ends.
pub fn subscribe_step(target: &String, event: &AnnounceEvent) -> (r: SubscribeAction)
    ensures
        r == spec_subscribe_step(target@, *event),
{
    match event {
        AnnounceEvent::Available { path } => {
            if path.eq(target) {
                SubscribeAction::Attach
            } else {
                SubscribeAction::KeepWaiting
            }
        },
        AnnounceEvent::Removed { .. } => SubscribeAction::KeepWaiting,
        AnnounceEvent::Ended => SubscribeAction::FailClosed,
    }
}

/// What a whole run of announcements resolves to while waiting.
#[derive(Debug, PartialEq, Eq, Structural)]
pub enum WaitResolution {
    /// The target path was announced: the loop attaches.
    Attached,
    /// Nothing decided the wait yet: the loop is still waiting.
    StillWaiting,
    /// The announcement stream ended before the target appeared.
    Failed,
}

/// What a sequence of announcements resolves to: the first decisive
/// event — the target becoming available, or the stream ending — wins;
/// everything before it leaves the loop waiting.
pub open spec fn spec_wait_run(target: Seq<char>, events: Seq<AnnounceEvent>) -> WaitResolution
    decreases events.len(),
{
    if events.len() == 0 {
        WaitResolution::StillWaiting
    } else {
        match spec_subscribe_step(target, events[0]) {
            SubscribeAction::Attach => WaitResolution::Attached,
            SubscribeAction::FailClosed => WaitResolution::Failed,
            SubscribeAction::KeepWaiting => spec_wait_run(target, events.drop_first()),
        }
    }
}

/// The waiting state machine of the subscribe loop, run over a batch
/// of announcements: it attaches at the first availability of the
/// target, fails when the stream ends, and otherwise keeps waiting.
pub fn resolve_announcements(target: &String, events: &Vec<AnnounceEvent>) -> (r: WaitResolution)
    ensures
        r == spec_wait_run(target@, events@),
{
    let mut i: usize = 0;
    proof {
        assert(events@.skip(0) =~= events@);
    }
    while i < events.len()
        invariant
            i <= events@.len(),
            spec_wait_run(target@, events@) == spec_wait_run(target@, events@.skip(i as int)),
        decreases events@.len() - i,
    {
        proof {
            assert(events@.skip(i as int)[0] == events@[i as int]);
            assert(events@.skip(i as int).drop_first() =~= events@.skip(i + 1 as int));
        }
        match subscribe_step(target, &events[i]) {
            SubscribeAction::Attach => {
                return WaitResolution::Attached;
            },
            SubscribeAction::FailClosed => {
                return WaitResolution::Failed;
            },
            SubscribeAction::KeepWaiting => {
            },
        }
        i = i + 1;
    }
    WaitResolution::StillWaiting
}

/// A run of nothing but unrelated announcements — availabilities at
/// other paths and removals — leaves the loop waiting, with no attach
/// and no error.
pub proof fn lemma_unrelated_run_stays_waiting(target: Seq<char>, events: Seq<AnnounceEvent>)
    requires
        forall|i: int|
            0 <= i < events.len() ==> match #[trigger] events[i] {
                AnnounceEvent::Available { path } => path@ != target,
                AnnounceEvent::Removed { .. } => true,
                AnnounceEvent::Ended => false,
            },
    ensures
        spec_wait_run(target, events) == WaitResolution::StillWaiting,
    decreases events.len(),
{
    if events.len() > 0 {
        lemma_unrelated_run_stays_waiting(target, events.drop_first());
    }
}

/// Unrelated announcements never disturb the wait: an availability at
/// another path, or any removal, leaves the loop waiting without error.
pub proof fn lemma_unrelated_announcements_keep_waiting(target: Seq<char>, event: AnnounceEvent)
    requires
        match event {
            AnnounceEvent::Available { path } => path@ != target,
            AnnounceEvent::Removed { .. } => true,
            AnnounceEvent::Ended => false,
        },
    ensures
        spec_subscribe_step(target, event) == SubscribeAction::KeepWaiting,
{
}

/// Wraps a payload received from the transport as a local media frame:
/// the bytes are carried through unchanged and no capture metadata is
/// invented for them.
pub fn wrap_remote_payload(payload: Vec<u8>) -> (r: MediaFrame)
    ensures
        r.payload@ == payload@,
        r.sample_count is None,
        r.skipped_frames is None,
        r.skipped_samples is None,
{
    MediaFrame { payload, sample_count: None, skipped_frames: None, skipped_samples: None }
}

/// One payload framed for the transport: the declared size is fixed at
/// the moment the frame is created.
#[derive(Debug)]
pub struct FramedChunk {
    pub declared_size: usize,
    pub bytes: Vec<u8>,
}

/// A framed chunk is well-formed when its declared size matches the
/// bytes actually written.
pub open spec fn chunk_wf(chunk: FramedChunk) -> bool {
    chunk.declared_size == chunk.bytes@.len()
}

/// One transport group as the bridge publishes it: an ordered run of
/// framed chunks.
#[derive(Debug)]
pub struct TransportGroup {
    pub frames: Vec<FramedChunk>,
}

/// Frames one outbound media frame as a whole transport group: exactly
/// one chunk whose declared size equals its payload length.
pub fn encode_outbound(frame: &MediaFrame) -> (g: TransportGroup)
    ensures
        g.frames@.len() == 1,
        g.frames@[0].bytes@ == frame.payload@,
        chunk_wf(g.frames@[0]),
{
    let chunk = FramedChunk { declared_size: frame.payload.len(), bytes: frame.payload.clone() };
    let mut frames: Vec<FramedChunk> = Vec::new();
    frames.push(chunk);
    TransportGroup { frames }
}

/// Unpacks one received transport group into local media frames: every
/// chunk's bytes in order, each without capture metadata.
pub fn decode_inbound(group: TransportGroup) -> (r: Vec<MediaFrame>)
    ensures
        r@.len() == group.frames@.len(),
        forall|i: int|
            0 <= i < r@.len() ==> r@[i].payload@ == group.frames@[i].bytes@
                && r@[i].sample_count is None && r@[i].skipped_frames is None
                && r@[i].skipped_samples is None,
{
    let mut out: Vec<MediaFrame> = Vec::new();
    let mut i: usize = 0;
    while i < group.frames.len()
        invariant
            i <= group.frames@.len(),
            out@.len() == i,
            forall|j: int|
                0 <= j < i ==> out@[j].payload@ == group.frames@[j].bytes@
                    && out@[j].sample_count is None && out@[j].skipped_frames is None
                    && out@[j].skipped_samples is None,
        decreases group.frames@.len() - i,
    {
        let payload = group.frames[i].bytes.clone();
        out.push(wrap_remote_payload(payload));
        i = i + 1;
    }
    out
}

/// The round trip through the framing is the identity on payloads: a
/// payload framed as one group is read back byte-for-byte, and only
/// the payload is required to survive — capture metadata is not
/// carried across the transport.
pub proof fn lemma_forward_roundtrip(sent: MediaFrame, group: TransportGroup, got: Seq<MediaFrame>)
    requires
        group.frames@.len() == 1,
        group.frames@[0].bytes@ == sent.payload@,
        got.len() == group.frames@.len(),
        forall|i: int| 0 <= i < got.len() ==> got[i].payload@ == group.frames@[i].bytes@,
    ensures
        got.len() == 1,
        got[0].payload@ == sent.payload@,
{
}

/// Which of the three raced futures resolved first.
#[derive(Debug)]
pub enum RaceWinner {
    /// The publish loop returned, cleanly or with its fatal error.
    PublishDone(Result<(), SessionError>),
    /// The subscribe loop returned, cleanly or with its fatal error.
    SubscribeDone(Result<(), SessionError>),
    /// The session's closed signal fired.
    Closed,
}

/// How a race outcome ends the session.
pub open spec fn spec_session_outcome(winner: RaceWinner) -> Result<(), SessionError> {
    match winner {
        RaceWinner::PublishDone(r) => r,
        RaceWinner::SubscribeDone(r) => r,
        RaceWinner::Closed => Err(SessionError::SessionClosed),
    }
}

/// Maps whichever future resolved first to the session's result: a
/// loop's own result is surfaced as it stands, and the closed signal
/// ends the session with `SessionClosed` even if both loops were
/// healthy.
pub fn session_outcome(winner: RaceWinner) -> (r: Result<(), SessionError>)
    ensures
        r == spec_session_outcome(winner),
{
    match winner {
        RaceWinner::PublishDone(r) => r,
        RaceWinner::SubscribeDone(r) => r,
        RaceWinner::Closed => Err(SessionError::SessionClosed),
    }
}

/// The closed signal always ends the session as `SessionClosed`,
/// never as a hang or a success.
pub proof fn lemma_closed_signal_ends_session()
    ensures
        spec_session_outcome(RaceWinner::Closed) == Err::<(), SessionError>(
            SessionError::SessionClosed,
        ),
{
}

} // verus!
