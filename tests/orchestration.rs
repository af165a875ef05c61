use broadcast_terminal::graph::{Name, Role};
use broadcast_terminal::plan::Step;
use broadcast_terminal::stream::{Branch, BranchState, SourceKind, Stream, StreamError};

fn built() -> Stream {
    let mut s = Stream::new(SourceKind::Test);
    s.create_videopipeline(None).unwrap();
    s.create_audiopipeline().unwrap();
    s
}

fn named(s: &Stream, name: Name) -> usize {
    s.graph().nodes().iter().filter(|n| n.name == Some(name)).count()
}

#[test]
fn camera_toggle_scenario() {
    let mut s = built();
    let mixer = s.mixer(Branch::Camera).unwrap();
    let nodes = s.graph().node_count();
    assert!(s.camera_off());
    assert!(s.mic_off());
    assert!(!s.is_publishing());
    assert_eq!(s.graph().pad_count(mixer), 0);

    s.toggle_camera(None).unwrap();
    s.complete(Branch::Camera, true);
    assert!(s.camera_enabled());
    assert_eq!(s.graph().pad_count(mixer), 1);
    assert_eq!(s.graph().node_count(), nodes + 3);

    s.toggle_camera(None).unwrap();
    s.complete(Branch::Camera, true);
    assert!(s.camera_off());
    assert_eq!(s.graph().pad_count(mixer), 0);
    assert_eq!(s.graph().node_count(), nodes);
}

#[test]
fn mic_toggle_round_trip() {
    let mut s = built();
    let mixer = s.mixer(Branch::Mic).unwrap();
    let before = s.graph().nodes().clone();
    let pads = s.graph().pads().clone();
    let links = s.graph().link_count();
    s.toggle_mic(None).unwrap();
    s.complete(Branch::Mic, true);
    assert_eq!(s.graph().pad_count(mixer), 1);
    assert_eq!(s.graph().node_count(), before.len() + 8);
    s.toggle_mic(None).unwrap();
    s.complete(Branch::Mic, true);
    assert_eq!(s.graph().nodes(), &before);
    assert_eq!(s.graph().pads(), &pads);
    assert_eq!(s.graph().link_count(), links);
    assert!(s.mic_off());
}

#[test]
fn camera_and_mic_toggle_independently() {
    let mut s = built();
    let before = s.graph().nodes().clone();
    s.toggle_camera(None).unwrap();
    s.toggle_mic(None).unwrap();
    s.complete(Branch::Mic, true);
    s.complete(Branch::Camera, true);
    s.toggle_camera(None).unwrap();
    s.complete(Branch::Camera, true);
    assert!(s.camera_off());
    assert!(s.mic_enabled());
    assert_eq!(named(&s, Name::CameraSrc), 0);
    assert_eq!(named(&s, Name::MicSrc), 1);
    s.toggle_mic(None).unwrap();
    s.complete(Branch::Mic, true);
    assert_eq!(s.graph().nodes(), &before);
}

#[test]
fn second_toggle_in_flight_is_declined() {
    let mut s = built();
    let plan = s.toggle_camera(None).unwrap();
    assert!(!plan.is_empty());
    assert!(matches!(s.state(Branch::Camera), BranchState::Starting { .. }));
    assert_eq!(s.toggle_camera(None), Err(StreamError::Busy));
    assert_eq!(named(&s, Name::CameraSrc), 0);
    s.complete(Branch::Camera, true);
    assert_eq!(named(&s, Name::CameraSrc), 1);
    assert_eq!(named(&s, Name::CameraUpload), 1);
    s.toggle_camera(None).unwrap();
    assert_eq!(s.toggle_camera(None), Err(StreamError::Busy));
    s.complete(Branch::Camera, true);
    assert_eq!(named(&s, Name::CameraSrc), 0);
}

#[test]
fn failed_toggle_keeps_prior_state() {
    let mut s = built();
    let nodes = s.graph().node_count();
    s.toggle_mic(None).unwrap();
    s.complete(Branch::Mic, false);
    assert_eq!(s.state(Branch::Mic), BranchState::Off);
    assert_eq!(s.graph().node_count(), nodes);
    s.toggle_mic(None).unwrap();
    s.complete(Branch::Mic, true);
    s.toggle_mic(None).unwrap();
    s.complete(Branch::Mic, false);
    assert!(s.mic_enabled());
    assert_eq!(s.graph().node_count(), nodes + 8);
}

#[test]
fn toggle_needs_fixed_branch() {
    let mut s = Stream::new(SourceKind::Native);
    assert_eq!(s.toggle_camera(None), Err(StreamError::NotBuilt));
    assert_eq!(s.toggle_mic(None), Err(StreamError::NotBuilt));
    assert_eq!(s.start_publishing("rtmp://h/app/key".to_string()), Err(StreamError::NotBuilt));
}

#[test]
fn fixed_branches_are_built_once() {
    let mut s = built();
    assert_eq!(s.create_videopipeline(None), Err(StreamError::AlreadyBuilt));
    assert_eq!(s.create_audiopipeline(), Err(StreamError::AlreadyBuilt));
    assert_eq!(s.graph().node_count(), 21);
}

#[test]
fn video_plan_builds_preview_chain() {
    let mut s = Stream::new(SourceKind::Native);
    let plan = s.create_videopipeline(Some("/dev/video0".to_string())).unwrap();
    assert_eq!(plan.len(), 12 + 1 + 4);
    assert_eq!(plan[0], Step::Create { id: 0, role: Role::V4l2Src, name: None });
    assert_eq!(plan[3], Step::Create { id: 3, role: Role::GlVideoMixer, name: Some(Name::VideoMix) });
    assert_eq!(plan[13], Step::AddAndLink { first: 0, last: 11 });
    assert_eq!(plan[16], Step::InstallFrameSink { id: 11 });
    assert_eq!(s.mixer(Branch::Camera), Some(3));
    assert_eq!(s.graph().link_count(), 11);
}

#[test]
fn detach_plan_redirects_before_release() {
    let mut s = built();
    let mixer = s.mixer(Branch::Camera).unwrap();
    s.toggle_camera(None).unwrap();
    s.complete(Branch::Camera, true);
    let first = match s.state(Branch::Camera) {
        BranchState::On { first } => first,
        other => panic!("camera not on: {:?}", other),
    };
    let sink = s.graph().next_id();
    let plan = s.toggle_camera(None).unwrap();
    let out = first + 2;
    let pad = first + 3;
    assert_eq!(
        plan,
        vec![
            Step::Create { id: sink, role: Role::FakeSink, name: None },
            Step::Add { id: sink },
            Step::UnlinkFromPad { from: out, pad },
            Step::Link { from: out, to: sink },
            Step::SendEos { pad },
            Step::ReleasePad { mixer, pad },
            Step::Remove { first, last: out },
            Step::Remove { first: sink, last: sink },
            Step::SetPlaying,
        ]
    );
}

#[test]
fn publish_is_idempotent() {
    let mut s = built();
    let plan = s.start_publishing("rtmp://a/live/key".to_string()).unwrap();
    assert_eq!(plan.last(), Some(&Step::SetPlaying));
    assert!(s.is_publishing());
    let nodes = s.graph().node_count();
    let links = s.graph().link_count();
    assert_eq!(nodes, 21 + 12);
    let again = s.start_publishing("rtmp://a/live/key".to_string()).unwrap();
    assert!(again.is_empty());
    let other = s.start_publishing("rtmp://b/live/other".to_string()).unwrap();
    assert!(other.is_empty());
    assert_eq!(s.graph().node_count(), nodes);
    assert_eq!(s.graph().link_count(), links);
    assert_eq!(named(&s, Name::Mux), 1);
}

#[test]
fn run_sets_playing() {
    let s = built();
    assert_eq!(s.run(), vec![Step::SetPlaying]);
}
