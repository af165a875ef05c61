//! The orchestrator: owns the model of the media graph and decides the plans
//! that build its fixed branches, attach and detach the camera and the
//! microphone while it runs, and add the publish branch once.
use vstd::prelude::*;
use crate::graph::{chain_links, lemma_chain_links, lemma_filter_keeps_all, lemma_filter_drops_all, Graph, GraphView, Link, Name, Node, Pad, Part, Role, Target, link_outside, node_outside, pad_outside};
use crate::plan::{CapsPreset, Prop, Step, creates, push_creates, LEVEL_INTERVAL_NS};
use crate::setting::MicrophoneMode;

verus! {

/// Where the capture sources come from.
#[derive(Clone, Copy, Debug, PartialEq, Eq, Structural)]
pub enum SourceKind {
    /// Hardware devices.
    Native,
    /// Synthetic test patterns and tones.
    Test,
}

/// A branch that can be attached and detached while the graph runs.
#[derive(Clone, Copy, Debug, PartialEq, Eq, Structural)]
pub enum Branch {
    Camera,
    Mic,
}

/// Where a toggle-able branch stands. While a toggle is being performed on
/// the engine the branch is `Starting` or `Stopping`, and no other toggle of
/// it is accepted. Its nodes have the ids `first..first + size`, its request
/// pad the id `first + size`.
#[derive(Clone, Copy, Debug, PartialEq, Eq, Structural)]
pub enum BranchState {
    Off,
    Starting { first: u64 },
    On { first: u64 },
    Stopping { first: u64, sink: u64 },
}

/// Why the orchestrator declined an operation.
#[derive(Clone, Copy, Debug, PartialEq, Eq, Structural)]
pub enum StreamError {
    /// The fixed branch the operation needs has not been built.
    NotBuilt,
    /// The fixed branch has been built already.
    AlreadyBuilt,
    /// A toggle of the same branch is still being performed.
    Busy,
    /// The graph has run out of node ids.
    IdsExhausted,
}

/// Ids are handed out below this bound.
pub const ID_LIMIT: u64 = 0xffff_ffff_ffff_ff00;

/// The mathematical value of the orchestrator.
pub struct StreamView {
    pub graph: GraphView,
    pub sources: SourceKind,
    pub video_mix: Option<u64>,
    pub video_tee: Option<u64>,
    pub audio_mix: Option<u64>,
    pub audio_tee: Option<u64>,
    pub camera: BranchState,
    pub mic: BranchState,
    pub publishing: bool,
}

/// The part of the graph that holds branch `b`.
pub open spec fn part_of(b: Branch) -> Part {
    match b {
        Branch::Camera => Part::Camera,
        Branch::Mic => Part::Mic,
    }
}

/// The number of nodes in branch `b`.
pub open spec fn branch_size(b: Branch) -> nat {
    match b {
        Branch::Camera => 3,
        Branch::Mic => 8,
    }
}

/// The video source role for `sources`.
pub open spec fn video_source(sources: SourceKind) -> Role {
    match sources {
        SourceKind::Native => Role::V4l2Src,
        SourceKind::Test => Role::VideoTestSrc,
    }
}

/// The audio source role for `sources`.
pub open spec fn audio_source(sources: SourceKind) -> Role {
    match sources {
        SourceKind::Native => Role::AlsaSrc,
        SourceKind::Test => Role::AudioTestSrc,
    }
}

/// The node `first + i` of `part`.
pub open spec fn node_at(first: u64, i: int, role: Role, name: Option<Name>, part: Part) -> Node {
    Node { id: (first + i) as u64, role, name, part }
}

/// The nodes of branch `b`, with ids from `first` on, in chain order.
pub open spec fn branch_nodes(b: Branch, sources: SourceKind, first: u64) -> Seq<Node> {
    let p = part_of(b);
    match b {
        Branch::Camera => seq![
            node_at(first, 0, video_source(sources), Some(Name::CameraSrc), p),
            node_at(first, 1, Role::CapsFilter, Some(Name::CameraCaps), p),
            node_at(first, 2, Role::GlUpload, Some(Name::CameraUpload), p),
        ],
        Branch::Mic => seq![
            node_at(first, 0, audio_source(sources), Some(Name::MicSrc), p),
            node_at(first, 1, Role::Queue, Some(Name::MicQueue0), p),
            node_at(first, 2, Role::AudioConvert, Some(Name::MicConvert), p),
            node_at(first, 3, Role::AudioResample, Some(Name::MicResample), p),
            node_at(first, 4, Role::AudioChannelMix, Some(Name::MicChmix), p),
            node_at(first, 5, Role::CapsFilter, Some(Name::MicCaps), p),
            node_at(first, 6, Role::Level, Some(Name::MicLevel), p),
            node_at(first, 7, Role::Queue, Some(Name::MicQueue), p),
        ],
    }
}

/// `g` with the chain `nodes` added and its last node linked to a new
/// request pad `pad` on `mixer`.
pub open spec fn attach(g: GraphView, nodes: Seq<Node>, part: Part, mixer: u64, pad: u64) -> GraphView {
    let chained = g.with_chain(nodes, part);
    GraphView {
        links: chained.links.push(Link { from: nodes.last().id, to: Target::Pad(pad), part }),
        pads: chained.pads.push(Pad { id: pad, mixer, part }),
        ..chained
    }
}

/// `g` with the branch of `part` detached: its last node `out` is linked to
/// a throwaway sink `sink`, and every node, link and request pad of the
/// part, the link into its pad among them, is removed.
pub open spec fn detach(g: GraphView, part: Part, out: u64, pad: u64, sink: u64) -> GraphView {
    let nodes = g.nodes.push(Node { id: sink, role: Role::FakeSink, name: None, part });
    let links = g.links.push(Link { from: out, to: Target::Node(sink), part });
    GraphView {
        nodes: nodes.filter(node_outside(part)),
        links: links.filter(link_outside(part)),
        pads: g.pads.filter(pad_outside(part)),
        next_id: g.next_id,
    }
}

impl StreamView {
    /// Where branch `b` stands.
    pub open spec fn state(self, b: Branch) -> BranchState {
        match b {
            Branch::Camera => self.camera,
            Branch::Mic => self.mic,
        }
    }

    /// The mixer that branch `b` feeds, once its fixed branch is built.
    pub open spec fn mixer(self, b: Branch) -> Option<u64> {
        match b {
            Branch::Camera => self.video_mix,
            Branch::Mic => self.audio_mix,
        }
    }

    /// `self` with branch `b` in state `st`.
    pub open spec fn with_state(self, b: Branch, st: BranchState) -> StreamView {
        match b {
            Branch::Camera => StreamView { camera: st, ..self },
            Branch::Mic => StreamView { mic: st, ..self },
        }
    }

    /// The branch `b` and its ids agree with the graph.
    pub open spec fn branch_ok(self, b: Branch) -> bool {
        let k = branch_size(b);
        match self.state(b) {
            BranchState::Off => self.graph.free_of(part_of(b)),
            BranchState::Starting { first } => {
                &&& self.graph.free_of(part_of(b))
                &&& first + k + 1 <= self.graph.next_id
                &&& self.mixer(b) is Some
            },
            BranchState::On { first } => {
                &&& first + k + 1 <= self.graph.next_id
                &&& self.mixer(b) is Some
            },
            BranchState::Stopping { first, sink } => {
                &&& first + k + 1 <= self.graph.next_id
                &&& sink < self.graph.next_id
                &&& self.mixer(b) is Some
            },
        }
    }

    /// The invariant of the orchestrator.
    pub open spec fn well_formed(self) -> bool {
        &&& self.graph.well_formed()
        &&& self.graph.next_id <= ID_LIMIT
        &&& self.branch_ok(Branch::Camera)
        &&& self.branch_ok(Branch::Mic)
        &&& (self.video_mix is Some <==> self.video_tee is Some)
        &&& (self.audio_mix is Some <==> self.audio_tee is Some)
        &&& (self.video_tee is Some ==> self.video_tee->Some_0 < self.graph.next_id)
        &&& (self.audio_tee is Some ==> self.audio_tee->Some_0 < self.graph.next_id)
    }

    /// Why a toggle of `b` is declined, if it is.
    pub open spec fn toggle_error(self, b: Branch) -> Option<StreamError> {
        if self.mixer(b) is None {
            Some(StreamError::NotBuilt)
        } else if self.state(b) is Starting || self.state(b) is Stopping {
            Some(StreamError::Busy)
        } else if self.graph.next_id + branch_size(b) + 1 > ID_LIMIT {
            Some(StreamError::IdsExhausted)
        } else {
            None
        }
    }

    /// The orchestrator once a toggle of `b` has begun.
    pub open spec fn begun(self, b: Branch) -> StreamView {
        let next = self.graph.next_id;
        match self.state(b) {
            BranchState::Off => StreamView {
                graph: GraphView { next_id: next + branch_size(b) + 1, ..self.graph },
                ..self
            }.with_state(b, BranchState::Starting { first: next as u64 }),
            BranchState::On { first } => StreamView {
                graph: GraphView { next_id: next + 1, ..self.graph },
                ..self
            }.with_state(b, BranchState::Stopping { first, sink: next as u64 }),
            _ => self,
        }
    }

    /// The orchestrator once the toggle of `b` in flight has been performed,
    /// with `succeeded` telling whether the engine carried it out.
    pub open spec fn completed(self, b: Branch, succeeded: bool) -> StreamView {
        let k = branch_size(b);
        let mixer = self.mixer(b)->Some_0;
        match self.state(b) {
            BranchState::Starting { first } => if succeeded {
                StreamView {
                    graph: attach(
                        self.graph,
                        branch_nodes(b, self.sources, first),
                        part_of(b),
                        mixer,
                        (first + k) as u64,
                    ),
                    ..self
                }.with_state(b, BranchState::On { first })
            } else {
                self.with_state(b, BranchState::Off)
            },
            BranchState::Stopping { first, sink } => if succeeded {
                StreamView {
                    graph: detach(self.graph, part_of(b), (first + k - 1) as u64, (first + k) as u64, sink),
                    ..self
                }.with_state(b, BranchState::Off)
            } else {
                self.with_state(b, BranchState::On { first })
            },
            _ => self,
        }
    }
}

/// The plan that attaches branch `b`, with nodes from `first` on, to
/// `mixer`.
pub open spec fn attach_plan(
    b: Branch,
    sources: SourceKind,
    first: u64,
    mixer: u64,
    device: Option<String>,
    mode: Option<MicrophoneMode>,
) -> Seq<Step> {
    let k = branch_size(b);
    let last = (first + k - 1) as u64;
    let pad = (first + k) as u64;
    let tail = seq![
        Step::AddAndLink { first, last },
        Step::RequestPad { mixer, pad },
        Step::LinkToPad { from: last, pad },
        Step::SetPlaying,
    ];
    match b {
        Branch::Camera => creates(branch_nodes(b, sources, first)) + match device {
            Some(d) => seq![Step::Configure { id: first, prop: Prop::Device(d) }],
            None => Seq::empty(),
        } + seq![Step::Configure { id: (first + 1) as u64, prop: Prop::Caps(CapsPreset::CameraScale) }]
            + tail,
        Branch::Mic => creates(branch_nodes(b, sources, first)) + seq![
            Step::Configure { id: (first + 6) as u64, prop: Prop::PostMessages },
            Step::Configure { id: (first + 6) as u64, prop: Prop::Interval(LEVEL_INTERVAL_NS) },
        ] + if mode == Some(MicrophoneMode::ForceStereo) {
            seq![Step::Configure { id: (first + 4) as u64, prop: Prop::ForceStereo }]
        } else {
            Seq::empty()
        } + seq![Step::Configure { id: (first + 5) as u64, prop: Prop::Caps(CapsPreset::Stereo) }]
            + tail,
    }
}

/// The plan that detaches branch `b`, whose nodes start at `first`, from
/// `mixer`, through the throwaway sink `sink`: the data is redirected to the
/// sink before the mixer's pad is shut with end-of-stream and released, and
/// only then are the branch's nodes and the sink stopped and removed.
pub open spec fn detach_plan(b: Branch, first: u64, mixer: u64, sink: u64) -> Seq<Step> {
    let k = branch_size(b);
    let out = (first + k - 1) as u64;
    let pad = (first + k) as u64;
    seq![
        Step::Create { id: sink, role: Role::FakeSink, name: None },
        Step::Add { id: sink },
        Step::UnlinkFromPad { from: out, pad },
        Step::Link { from: out, to: sink },
        Step::SendEos { pad },
        Step::ReleasePad { mixer, pad },
        Step::Remove { first, last: out },
        Step::Remove { first: sink, last: sink },
        Step::SetPlaying,
    ]
}

/// The plan that begins a toggle of `b` in `s`.
pub open spec fn toggle_plan(
    s: StreamView,
    b: Branch,
    device: Option<String>,
    mode: Option<MicrophoneMode>,
) -> Seq<Step> {
    let mixer = s.mixer(b)->Some_0;
    match s.state(b) {
        BranchState::Off => attach_plan(b, s.sources, s.graph.next_id as u64, mixer, device, mode),
        BranchState::On { first } => detach_plan(b, first, mixer, s.graph.next_id as u64),
        _ => Seq::empty(),
    }
}

/// The nodes of the fixed video branch, with ids from `first` on: source,
/// caps, upload, the video mixer, the video tee, then the preview chain
/// down to the frame sink.
pub open spec fn video_nodes(sources: SourceKind, first: u64) -> Seq<Node> {
    let p = Part::Video;
    seq![
        node_at(first, 0, video_source(sources), None, p),
        node_at(first, 1, Role::CapsFilter, None, p),
        node_at(first, 2, Role::GlUpload, None, p),
        node_at(first, 3, Role::GlVideoMixer, Some(Name::VideoMix), p),
        node_at(first, 4, Role::Tee, Some(Name::VideoTee), p),
        node_at(first, 5, Role::Queue, None, p),
        node_at(first, 6, Role::GlColorConvert, None, p),
        node_at(first, 7, Role::GlDownload, None, p),
        node_at(first, 8, Role::VideoRate, None, p),
        node_at(first, 9, Role::CapsFilter, None, p),
        node_at(first, 10, Role::Queue, None, p),
        node_at(first, 11, Role::AppSink, None, p),
    ]
}

/// The plan that builds the fixed video branch.
pub open spec fn video_plan(sources: SourceKind, first: u64, device: Option<String>) -> Seq<Step> {
    creates(video_nodes(sources, first)) + match device {
        Some(d) => seq![Step::Configure { id: first, prop: Prop::Device(d) }],
        None => Seq::empty(),
    } + seq![
        Step::AddAndLink { first, last: (first + 11) as u64 },
        Step::Configure { id: (first + 1) as u64, prop: Prop::Caps(CapsPreset::Capture) },
        Step::Configure { id: (first + 9) as u64, prop: Prop::Caps(CapsPreset::Preview) },
        Step::InstallFrameSink { id: (first + 11) as u64 },
    ]
}

/// The nodes of the fixed audio branch, with ids from `first` on: source,
/// conversion, the audio mixer, the audio tee, then the output loudness
/// probe and its sink.
pub open spec fn audio_nodes(sources: SourceKind, first: u64) -> Seq<Node> {
    let p = Part::Audio;
    seq![
        node_at(first, 0, audio_source(sources), None, p),
        node_at(first, 1, Role::Queue, None, p),
        node_at(first, 2, Role::AudioConvert, None, p),
        node_at(first, 3, Role::CapsFilter, None, p),
        node_at(first, 4, Role::AudioMixer, Some(Name::AudioMix), p),
        node_at(first, 5, Role::Tee, Some(Name::AudioTee), p),
        node_at(first, 6, Role::Queue, None, p),
        node_at(first, 7, Role::Level, Some(Name::OutputLevel), p),
        node_at(first, 8, Role::FakeSink, None, p),
    ]
}

/// The plan that builds the fixed audio branch.
pub open spec fn audio_plan(sources: SourceKind, first: u64) -> Seq<Step> {
    creates(audio_nodes(sources, first)) + seq![
        Step::Configure { id: (first + 7) as u64, prop: Prop::PostMessages },
        Step::Configure { id: (first + 7) as u64, prop: Prop::Interval(LEVEL_INTERVAL_NS) },
        Step::Configure { id: (first + 8) as u64, prop: Prop::Sync },
        Step::AddAndLink { first, last: (first + 8) as u64 },
        Step::Configure { id: (first + 3) as u64, prop: Prop::Caps(CapsPreset::Stereo) },
    ]
}

/// The muxer, its queue and the network sink of the publish branch.
pub open spec fn mux_nodes(first: u64) -> Seq<Node> {
    let p = Part::Publish;
    seq![
        node_at(first, 0, Role::FlvMux, Some(Name::Mux), p),
        node_at(first, 1, Role::Queue, None, p),
        node_at(first, 2, Role::RtmpSink, None, p),
    ]
}

/// The video encoding chain of the publish branch.
pub open spec fn video_encoder_nodes(first: u64) -> Seq<Node> {
    let p = Part::Publish;
    seq![
        node_at(first, 3, Role::Queue, None, p),
        node_at(first, 4, Role::GlColorConvert, None, p),
        node_at(first, 5, Role::GlDownload, None, p),
        node_at(first, 6, Role::CapsFilter, None, p),
        node_at(first, 7, Role::V4l2H264Enc, None, p),
        node_at(first, 8, Role::H264Parse, None, p),
    ]
}

/// The audio encoding chain of the publish branch.
pub open spec fn audio_encoder_nodes(first: u64) -> Seq<Node> {
    let p = Part::Publish;
    seq![
        node_at(first, 9, Role::Queue, None, p),
        node_at(first, 10, Role::VoAacEnc, None, p),
        node_at(first, 11, Role::AacParse, None, p),
    ]
}

/// The link from node `from` to node `to` in the publish branch.
pub open spec fn publish_link(from: u64, to: u64) -> Link {
    Link { from, to: Target::Node(to), part: Part::Publish }
}

/// `g` with the publish branch added: the muxer chain, then the video
/// encoder fed by the video tee, then the audio encoder fed by the audio tee,
/// both into the muxer.
pub open spec fn with_publish(g: GraphView, first: u64, video_tee: u64, audio_tee: u64) -> GraphView {
    let p = Part::Publish;
    let g1 = g.with_chain(mux_nodes(first), p).with_chain(video_encoder_nodes(first), p);
    let g2 = GraphView {
        links: g1.links.push(publish_link(video_tee, (first + 3) as u64)).push(
            publish_link((first + 8) as u64, first),
        ),
        ..g1
    };
    let g3 = g2.with_chain(audio_encoder_nodes(first), p);
    GraphView {
        links: g3.links.push(publish_link(audio_tee, (first + 9) as u64)).push(
            publish_link((first + 11) as u64, first),
        ),
        ..g3
    }
}

/// The plan that adds the publish branch, sending to `location`.
pub open spec fn publish_plan(first: u64, video_tee: u64, audio_tee: u64, location: String) -> Seq<Step> {
    creates(mux_nodes(first)) + seq![
        Step::Configure { id: (first + 2) as u64, prop: Prop::Location(location) },
        Step::AddAndLink { first, last: (first + 2) as u64 },
    ] + creates(video_encoder_nodes(first)) + seq![
        Step::Configure { id: (first + 6) as u64, prop: Prop::Caps(CapsPreset::Encoder) },
        Step::AddAndLink { first: (first + 3) as u64, last: (first + 8) as u64 },
        Step::Link { from: video_tee, to: (first + 3) as u64 },
        Step::Link { from: (first + 8) as u64, to: first },
    ] + creates(audio_encoder_nodes(first)) + seq![
        Step::AddAndLink { first: (first + 9) as u64, last: (first + 11) as u64 },
        Step::Link { from: audio_tee, to: (first + 9) as u64 },
        Step::Link { from: (first + 11) as u64, to: first },
        Step::SetPlaying,
    ]
}

/// What adding the publish branch to `s`, sending to `location`, returns
/// (the plan, or why it is declined) and leaves.
pub open spec fn publish_step(s: StreamView, location: String) -> (Result<Seq<Step>, StreamError>, StreamView) {
    let first = s.graph.next_id as u64;
    if s.publishing {
        (Ok(Seq::empty()), s)
    } else if s.video_tee is None || s.audio_tee is None {
        (Err(StreamError::NotBuilt), s)
    } else if s.graph.next_id + 12 > ID_LIMIT {
        (Err(StreamError::IdsExhausted), s)
    } else {
        let vt = s.video_tee->Some_0;
        let at = s.audio_tee->Some_0;
        let g = GraphView { next_id: s.graph.next_id + 12, ..s.graph };
        (
            Ok(publish_plan(first, vt, at, location)),
            StreamView { graph: with_publish(g, first, vt, at), publishing: true, ..s },
        )
    }
}

/// Node `first + i` of `part`.
fn make_node(first: u64, i: u64, role: Role, name: Option<Name>, part: Part) -> (r: Node)
    requires
        first + i <= u64::MAX,
    ensures
        r == node_at(first, i as int, role, name, part),
{
    Node { id: first + i, role, name, part }
}

/// The video source role for `sources`.
fn video_source_of(sources: SourceKind) -> (r: Role)
    ensures
        r == video_source(sources),
{
    match sources {
        SourceKind::Native => Role::V4l2Src,
        SourceKind::Test => Role::VideoTestSrc,
    }
}

/// The audio source role for `sources`.
fn audio_source_of(sources: SourceKind) -> (r: Role)
    ensures
        r == audio_source(sources),
{
    match sources {
        SourceKind::Native => Role::AlsaSrc,
        SourceKind::Test => Role::AudioTestSrc,
    }
}

/// The nodes of branch `b`, with ids from `first` on.
fn make_branch_nodes(b: Branch, sources: SourceKind, first: u64) -> (r: Vec<Node>)
    requires
        first + 8 <= u64::MAX,
    ensures
        r@ == branch_nodes(b, sources, first),
{
    match b {
        Branch::Camera => {
            let p = Part::Camera;
            let r = vec![
                make_node(first, 0, video_source_of(sources), Some(Name::CameraSrc), p),
                make_node(first, 1, Role::CapsFilter, Some(Name::CameraCaps), p),
                make_node(first, 2, Role::GlUpload, Some(Name::CameraUpload), p),
            ];
            assert(r@ =~= branch_nodes(b, sources, first));
            r
        },
        Branch::Mic => {
            let p = Part::Mic;
            let r = vec![
                make_node(first, 0, audio_source_of(sources), Some(Name::MicSrc), p),
                make_node(first, 1, Role::Queue, Some(Name::MicQueue0), p),
                make_node(first, 2, Role::AudioConvert, Some(Name::MicConvert), p),
                make_node(first, 3, Role::AudioResample, Some(Name::MicResample), p),
                make_node(first, 4, Role::AudioChannelMix, Some(Name::MicChmix), p),
                make_node(first, 5, Role::CapsFilter, Some(Name::MicCaps), p),
                make_node(first, 6, Role::Level, Some(Name::MicLevel), p),
                make_node(first, 7, Role::Queue, Some(Name::MicQueue), p),
            ];
            assert(r@ =~= branch_nodes(b, sources, first));
            r
        },
    }
}

/// The orchestrator of the media graph.
pub struct Stream {
    graph: Graph,
    sources: SourceKind,
    video_mix: Option<u64>,
    video_tee: Option<u64>,
    audio_mix: Option<u64>,
    audio_tee: Option<u64>,
    camera: BranchState,
    mic: BranchState,
    publishing: bool,
}

impl View for Stream {
    type V = StreamView;

    closed spec fn view(&self) -> StreamView {
        StreamView {
            graph: self.graph@,
            sources: self.sources,
            video_mix: self.video_mix,
            video_tee: self.video_tee,
            audio_mix: self.audio_mix,
            audio_tee: self.audio_tee,
            camera: self.camera,
            mic: self.mic,
            publishing: self.publishing,
        }
    }
}

impl Stream {
    /// An orchestrator with an empty graph: no branch built, camera and
    /// microphone off, not publishing.
    pub fn new(sources: SourceKind) -> (r: Stream)
        ensures
            r@.well_formed(),
            r@.graph.nodes.len() == 0,
            r@.graph.pads.len() == 0,
            r@.sources == sources,
            r@.video_mix is None,
            r@.audio_mix is None,
            r@.camera == BranchState::Off,
            r@.mic == BranchState::Off,
            !r@.publishing,
    {
        Stream {
            graph: Graph::new(),
            sources,
            video_mix: None,
            video_tee: None,
            audio_mix: None,
            audio_tee: None,
            camera: BranchState::Off,
            mic: BranchState::Off,
            publishing: false,
        }
    }

    /// The model of the media graph.
    pub fn graph(&self) -> (r: &Graph)
        ensures
            r@ == self@.graph,
    {
        &self.graph
    }

    /// Where branch `b` stands.
    pub fn state(&self, b: Branch) -> (r: BranchState)
        ensures
            r == self@.state(b),
    {
        match b {
            Branch::Camera => self.camera,
            Branch::Mic => self.mic,
        }
    }

    /// The mixer that branch `b` feeds, once its fixed branch is built.
    pub fn mixer(&self, b: Branch) -> (r: Option<u64>)
        ensures
            r == self@.mixer(b),
    {
        match b {
            Branch::Camera => self.video_mix,
            Branch::Mic => self.audio_mix,
        }
    }

    /// Whether the camera is off: it is until a toggle on has been carried
    /// out, and is again once a toggle off has.
    pub fn camera_off(&self) -> (r: bool)
        ensures
            r == (self@.camera is Off || self@.camera is Starting),
    {
        match self.camera {
            BranchState::Off | BranchState::Starting { .. } => true,
            _ => false,
        }
    }

    /// Whether the microphone is off.
    pub fn mic_off(&self) -> (r: bool)
        ensures
            r == (self@.mic is Off || self@.mic is Starting),
    {
        match self.mic {
            BranchState::Off | BranchState::Starting { .. } => true,
            _ => false,
        }
    }

    /// Whether the camera is on.
    pub fn camera_enabled(&self) -> (r: bool)
        ensures
            r == !(self@.camera is Off || self@.camera is Starting),
    {
        !self.camera_off()
    }

    /// Whether the microphone is on.
    pub fn mic_enabled(&self) -> (r: bool)
        ensures
            r == !(self@.mic is Off || self@.mic is Starting),
    {
        !self.mic_off()
    }

    /// Whether the publish branch has been added.
    pub fn is_publishing(&self) -> (r: bool)
        ensures
            r == self@.publishing,
    {
        self.publishing
    }

    fn set_state(&mut self, b: Branch, st: BranchState)
        ensures
            final(self)@ == old(self)@.with_state(b, st),
    {
        match b {
            Branch::Camera => self.camera = st,
            Branch::Mic => self.mic = st,
        }
    }

    /// Begins a toggle of branch `b` and returns the plan that performs it
    /// on the engine; the caller reports the outcome with `complete`.
    /// `device` is the camera's capture device, `mode` the microphone's.
    pub fn toggle(&mut self, b: Branch, device: Option<String>, mode: Option<MicrophoneMode>) -> (r: Result<Vec<Step>, StreamError>)
        requires
            old(self)@.well_formed(),
        ensures
            final(self)@.well_formed(),
            match old(self)@.toggle_error(b) {
                Some(e) => r == Err::<Vec<Step>, StreamError>(e) && final(self)@ == old(self)@,
                None => r is Ok && r->Ok_0@ == toggle_plan(old(self)@, b, device, mode)
                    && final(self)@ == old(self)@.begun(b),
            },
    {
        let mixer = match self.mixer(b) {
            Some(m) => m,
            None => return Err(StreamError::NotBuilt),
        };
        let st = self.state(b);
        match st {
            BranchState::Starting { .. } | BranchState::Stopping { .. } => return Err(StreamError::Busy),
            _ => {},
        }
        let k: u64 = match b {
            Branch::Camera => 3,
            Branch::Mic => 8,
        };
        if self.graph.next_id() > ID_LIMIT - k - 1 {
            return Err(StreamError::IdsExhausted);
        }
        let ghost s0 = self@;
        match st {
            BranchState::On { first } => {
                let sink = self.graph.reserve(1);
                let out = first + k - 1;
                let pad = first + k;
                let plan = vec![
                    Step::Create { id: sink, role: Role::FakeSink, name: None },
                    Step::Add { id: sink },
                    Step::UnlinkFromPad { from: out, pad },
                    Step::Link { from: out, to: sink },
                    Step::SendEos { pad },
                    Step::ReleasePad { mixer, pad },
                    Step::Remove { first, last: out },
                    Step::Remove { first: sink, last: sink },
                    Step::SetPlaying,
                ];
                self.set_state(b, BranchState::Stopping { first, sink });
                assert(plan@ =~= toggle_plan(s0, b, device, mode));
                assert(self@ == s0.begun(b));
                Ok(plan)
            },
            _ => {
                let first = self.graph.reserve(k + 1);
                let nodes = make_branch_nodes(b, self.sources, first);
                let mut plan: Vec<Step> = Vec::new();
                push_creates(&mut plan, &nodes);
                match b {
                    Branch::Camera => {
                        match device {
                            Some(d) => plan.push(Step::Configure { id: first, prop: Prop::Device(d) }),
                            None => {},
                        }
                        plan.push(Step::Configure { id: first + 1, prop: Prop::Caps(CapsPreset::CameraScale) });
                    },
                    Branch::Mic => {
                        plan.push(Step::Configure { id: first + 6, prop: Prop::PostMessages });
                        plan.push(Step::Configure { id: first + 6, prop: Prop::Interval(LEVEL_INTERVAL_NS) });
                        if mode == Some(MicrophoneMode::ForceStereo) {
                            plan.push(Step::Configure { id: first + 4, prop: Prop::ForceStereo });
                        }
                        plan.push(Step::Configure { id: first + 5, prop: Prop::Caps(CapsPreset::Stereo) });
                    },
                }
                let last = first + k - 1;
                let pad = first + k;
                plan.push(Step::AddAndLink { first, last });
                plan.push(Step::RequestPad { mixer, pad });
                plan.push(Step::LinkToPad { from: last, pad });
                plan.push(Step::SetPlaying);
                self.set_state(b, BranchState::Starting { first });
                assert(plan@ =~= toggle_plan(s0, b, device, mode));
                assert(self@ == s0.begun(b));
                Ok(plan)
            },
        }
    }

    /// Begins a toggle of the camera, capturing from `device` if given.
    pub fn toggle_camera(&mut self, device: Option<String>) -> (r: Result<Vec<Step>, StreamError>)
        requires
            old(self)@.well_formed(),
        ensures
            final(self)@.well_formed(),
            match old(self)@.toggle_error(Branch::Camera) {
                Some(e) => r == Err::<Vec<Step>, StreamError>(e) && final(self)@ == old(self)@,
                None => r is Ok && r->Ok_0@ == toggle_plan(old(self)@, Branch::Camera, device, None)
                    && final(self)@ == old(self)@.begun(Branch::Camera),
            },
    {
        self.toggle(Branch::Camera, device, None)
    }

    /// Begins a toggle of the microphone, mixed as `mode` says.
    pub fn toggle_mic(&mut self, mode: Option<MicrophoneMode>) -> (r: Result<Vec<Step>, StreamError>)
        requires
            old(self)@.well_formed(),
        ensures
            final(self)@.well_formed(),
            match old(self)@.toggle_error(Branch::Mic) {
                Some(e) => r == Err::<Vec<Step>, StreamError>(e) && final(self)@ == old(self)@,
                None => r is Ok && r->Ok_0@ == toggle_plan(old(self)@, Branch::Mic, None, mode)
                    && final(self)@ == old(self)@.begun(Branch::Mic),
            },
    {
        self.toggle(Branch::Mic, None, mode)
    }

    /// Builds the fixed video branch, capturing from `device` if given, and
    /// returns its plan. The branch is built once.
    pub fn create_videopipeline(&mut self, device: Option<String>) -> (r: Result<Vec<Step>, StreamError>)
        requires
            old(self)@.well_formed(),
        ensures
            final(self)@.well_formed(),
            old(self)@.video_mix is Some ==> r == Err::<Vec<Step>, StreamError>(StreamError::AlreadyBuilt)
                && final(self)@ == old(self)@,
            old(self)@.video_mix is None && old(self)@.graph.next_id + 12 > ID_LIMIT ==> r == Err::<
                Vec<Step>,
                StreamError,
            >(StreamError::IdsExhausted) && final(self)@ == old(self)@,
            old(self)@.video_mix is None && old(self)@.graph.next_id + 12 <= ID_LIMIT ==> {
                let first = old(self)@.graph.next_id as u64;
                let g = GraphView { next_id: old(self)@.graph.next_id + 12, ..old(self)@.graph };
                &&& r is Ok
                &&& r->Ok_0@ == video_plan(old(self)@.sources, first, device)
                &&& final(self)@ == (StreamView {
                    graph: g.with_chain(video_nodes(old(self)@.sources, first), Part::Video),
                    video_mix: Some((first + 3) as u64),
                    video_tee: Some((first + 4) as u64),
                    ..old(self)@
                })
            },
    {
        if self.video_mix.is_some() {
            return Err(StreamError::AlreadyBuilt);
        }
        if self.graph.next_id() > ID_LIMIT - 12 {
            return Err(StreamError::IdsExhausted);
        }
        let first = self.graph.reserve(12);
        let p = Part::Video;
        let nodes = vec![
            make_node(first, 0, video_source_of(self.sources), None, p),
            make_node(first, 1, Role::CapsFilter, None, p),
            make_node(first, 2, Role::GlUpload, None, p),
            make_node(first, 3, Role::GlVideoMixer, Some(Name::VideoMix), p),
            make_node(first, 4, Role::Tee, Some(Name::VideoTee), p),
            make_node(first, 5, Role::Queue, None, p),
            make_node(first, 6, Role::GlColorConvert, None, p),
            make_node(first, 7, Role::GlDownload, None, p),
            make_node(first, 8, Role::VideoRate, None, p),
            make_node(first, 9, Role::CapsFilter, None, p),
            make_node(first, 10, Role::Queue, None, p),
            make_node(first, 11, Role::AppSink, None, p),
        ];
        assert(nodes@ =~= video_nodes(self.sources, first));
        let mut plan: Vec<Step> = Vec::new();
        push_creates(&mut plan, &nodes);
        match device {
            Some(d) => plan.push(Step::Configure { id: first, prop: Prop::Device(d) }),
            None => {},
        }
        plan.push(Step::AddAndLink { first, last: first + 11 });
        plan.push(Step::Configure { id: first + 1, prop: Prop::Caps(CapsPreset::Capture) });
        plan.push(Step::Configure { id: first + 9, prop: Prop::Caps(CapsPreset::Preview) });
        plan.push(Step::InstallFrameSink { id: first + 11 });
        assert(plan@ =~= video_plan(self.sources, first, device));
        self.graph.add_chain(&nodes, p);
        self.video_mix = Some(first + 3);
        self.video_tee = Some(first + 4);
        Ok(plan)
    }

    /// Builds the fixed audio branch and returns its plan. The branch is
    /// built once.
    pub fn create_audiopipeline(&mut self) -> (r: Result<Vec<Step>, StreamError>)
        requires
            old(self)@.well_formed(),
        ensures
            final(self)@.well_formed(),
            old(self)@.audio_mix is Some ==> r == Err::<Vec<Step>, StreamError>(StreamError::AlreadyBuilt)
                && final(self)@ == old(self)@,
            old(self)@.audio_mix is None && old(self)@.graph.next_id + 9 > ID_LIMIT ==> r == Err::<
                Vec<Step>,
                StreamError,
            >(StreamError::IdsExhausted) && final(self)@ == old(self)@,
            old(self)@.audio_mix is None && old(self)@.graph.next_id + 9 <= ID_LIMIT ==> {
                let first = old(self)@.graph.next_id as u64;
                let g = GraphView { next_id: old(self)@.graph.next_id + 9, ..old(self)@.graph };
                &&& r is Ok
                &&& r->Ok_0@ == audio_plan(old(self)@.sources, first)
                &&& final(self)@ == (StreamView {
                    graph: g.with_chain(audio_nodes(old(self)@.sources, first), Part::Audio),
                    audio_mix: Some((first + 4) as u64),
                    audio_tee: Some((first + 5) as u64),
                    ..old(self)@
                })
            },
    {
        if self.audio_mix.is_some() {
            return Err(StreamError::AlreadyBuilt);
        }
        if self.graph.next_id() > ID_LIMIT - 9 {
            return Err(StreamError::IdsExhausted);
        }
        let first = self.graph.reserve(9);
        let p = Part::Audio;
        let nodes = vec![
            make_node(first, 0, audio_source_of(self.sources), None, p),
            make_node(first, 1, Role::Queue, None, p),
            make_node(first, 2, Role::AudioConvert, None, p),
            make_node(first, 3, Role::CapsFilter, None, p),
            make_node(first, 4, Role::AudioMixer, Some(Name::AudioMix), p),
            make_node(first, 5, Role::Tee, Some(Name::AudioTee), p),
            make_node(first, 6, Role::Queue, None, p),
            make_node(first, 7, Role::Level, Some(Name::OutputLevel), p),
            make_node(first, 8, Role::FakeSink, None, p),
        ];
        assert(nodes@ =~= audio_nodes(self.sources, first));
        let mut plan: Vec<Step> = Vec::new();
        push_creates(&mut plan, &nodes);
        plan.push(Step::Configure { id: first + 7, prop: Prop::PostMessages });
        plan.push(Step::Configure { id: first + 7, prop: Prop::Interval(LEVEL_INTERVAL_NS) });
        plan.push(Step::Configure { id: first + 8, prop: Prop::Sync });
        plan.push(Step::AddAndLink { first, last: first + 8 });
        plan.push(Step::Configure { id: first + 3, prop: Prop::Caps(CapsPreset::Stereo) });
        assert(plan@ =~= audio_plan(self.sources, first));
        self.graph.add_chain(&nodes, p);
        self.audio_mix = Some(first + 4);
        self.audio_tee = Some(first + 5);
        Ok(plan)
    }

    /// Adds the publish branch, sending to `location`, and returns its plan.
    /// Once it has been added, a further call changes nothing and returns an
    /// empty plan.
    pub fn start_publishing(&mut self, location: String) -> (r: Result<Vec<Step>, StreamError>)
        requires
            old(self)@.well_formed(),
        ensures
            final(self)@.well_formed(),
            final(self)@ == publish_step(old(self)@, location).1,
            r is Ok <==> publish_step(old(self)@, location).0 is Ok,
            r is Ok ==> r->Ok_0@ == publish_step(old(self)@, location).0->Ok_0,
            r is Err ==> r->Err_0 == publish_step(old(self)@, location).0->Err_0,
    {
        if self.publishing {
            return Ok(Vec::new());
        }
        let (vt, at) = match (self.video_tee, self.audio_tee) {
            (Some(vt), Some(at)) => (vt, at),
            _ => return Err(StreamError::NotBuilt),
        };
        if self.graph.next_id() > ID_LIMIT - 12 {
            return Err(StreamError::IdsExhausted);
        }
        let ghost s0 = self@;
        let first = self.graph.reserve(12);
        let p = Part::Publish;
        let mux = vec![
            make_node(first, 0, Role::FlvMux, Some(Name::Mux), p),
            make_node(first, 1, Role::Queue, None, p),
            make_node(first, 2, Role::RtmpSink, None, p),
        ];
        let venc = vec![
            make_node(first, 3, Role::Queue, None, p),
            make_node(first, 4, Role::GlColorConvert, None, p),
            make_node(first, 5, Role::GlDownload, None, p),
            make_node(first, 6, Role::CapsFilter, None, p),
            make_node(first, 7, Role::V4l2H264Enc, None, p),
            make_node(first, 8, Role::H264Parse, None, p),
        ];
        let aenc = vec![
            make_node(first, 9, Role::Queue, None, p),
            make_node(first, 10, Role::VoAacEnc, None, p),
            make_node(first, 11, Role::AacParse, None, p),
        ];
        assert(mux@ =~= mux_nodes(first));
        assert(venc@ =~= video_encoder_nodes(first));
        assert(aenc@ =~= audio_encoder_nodes(first));
        let mut plan: Vec<Step> = Vec::new();
        push_creates(&mut plan, &mux);
        plan.push(Step::Configure { id: first + 2, prop: Prop::Location(location) });
        plan.push(Step::AddAndLink { first, last: first + 2 });
        push_creates(&mut plan, &venc);
        plan.push(Step::Configure { id: first + 6, prop: Prop::Caps(CapsPreset::Encoder) });
        plan.push(Step::AddAndLink { first: first + 3, last: first + 8 });
        plan.push(Step::Link { from: vt, to: first + 3 });
        plan.push(Step::Link { from: first + 8, to: first });
        push_creates(&mut plan, &aenc);
        plan.push(Step::AddAndLink { first: first + 9, last: first + 11 });
        plan.push(Step::Link { from: at, to: first + 9 });
        plan.push(Step::Link { from: first + 11, to: first });
        plan.push(Step::SetPlaying);
        assert(plan@ =~= publish_plan(first, vt, at, location));
        self.graph.add_chain(&mux, p);
        self.graph.add_chain(&venc, p);
        self.graph.link(Link { from: vt, to: Target::Node(first + 3), part: p });
        self.graph.link(Link { from: first + 8, to: Target::Node(first), part: p });
        self.graph.add_chain(&aenc, p);
        self.graph.link(Link { from: at, to: Target::Node(first + 9), part: p });
        self.graph.link(Link { from: first + 11, to: Target::Node(first), part: p });
        self.publishing = true;
        Ok(plan)
    }

    /// The plan that brings the fixed branches to the running state at the
    /// start of the session.
    pub fn run(&self) -> (r: Vec<Step>)
        ensures
            r@ == seq![Step::SetPlaying],
    {
        let r = vec![Step::SetPlaying];
        assert(r@ =~= seq![Step::SetPlaying]);
        r
    }

    /// Records the outcome of the toggle of `b` in flight: the branch is
    /// attached or detached in the model if `succeeded`, and otherwise goes
    /// back to where it stood. Without a toggle in flight nothing changes.
    pub fn complete(&mut self, b: Branch, succeeded: bool)
        requires
            old(self)@.well_formed(),
        ensures
            final(self)@.well_formed(),
            final(self)@ == old(self)@.completed(b, succeeded),
    {
        let ghost s0 = self@;
        let part = match b {
            Branch::Camera => Part::Camera,
            Branch::Mic => Part::Mic,
        };
        let k: u64 = match b {
            Branch::Camera => 3,
            Branch::Mic => 8,
        };
        match self.state(b) {
            BranchState::Starting { first } => {
                if succeeded {
                    let mixer = match self.mixer(b) {
                        Some(m) => m,
                        None => return,
                    };
                    let nodes = make_branch_nodes(b, self.sources, first);
                    proof { lemma_branch_nodes(b, self.sources, first); }
                    self.graph.add_chain(&nodes, part);
                    let out = first + k - 1;
                    let pad = first + k;
                    self.graph.link(Link { from: out, to: Target::Pad(pad), part });
                    self.graph.request_pad(Pad { id: pad, mixer, part });
                    self.set_state(b, BranchState::On { first });
                    assert(nodes@.last().id == out);
                    assert(self@ == s0.completed(b, succeeded));
                } else {
                    self.set_state(b, BranchState::Off);
                }
            },
            BranchState::Stopping { first, sink } => {
                if succeeded {
                    let out = first + k - 1;
                    self.graph.add_node(Node { id: sink, role: Role::FakeSink, name: None, part });
                    self.graph.link(Link { from: out, to: Target::Node(sink), part });
                    self.graph.remove_part(part);
                    self.set_state(b, BranchState::Off);
                    assert(self@.graph == detach(s0.graph, part, out, (first + k) as u64, sink));
                } else {
                    self.set_state(b, BranchState::On { first });
                }
            },
            _ => {},
        }
    }
}

/// The nodes of a branch all belong to its part and carry the ids from
/// `first` on.
pub proof fn lemma_branch_nodes(b: Branch, sources: SourceKind, first: u64)
    requires
        first + branch_size(b) <= u64::MAX,
    ensures
        branch_nodes(b, sources, first).len() == branch_size(b),
        forall|i: int| 0 <= i < branch_size(b) ==> {
            &&& (#[trigger] branch_nodes(b, sources, first)[i]).id == first + i
            &&& branch_nodes(b, sources, first)[i].part == part_of(b)
        },
{
}

/// The part's nodes and the throwaway sink go; the other nodes stay.
proof fn lemma_detach_nodes(g: GraphView, nodes: Seq<Node>, part: Part, sink: u64)
    requires
        g.free_of(part),
        forall|i: int| 0 <= i < nodes.len() ==> (#[trigger] nodes[i]).part == part,
    ensures
        (g.nodes + nodes).push(Node { id: sink, role: Role::FakeSink, name: None, part }).filter(
            node_outside(part),
        ) == g.nodes,
{
    let sink_node = Node { id: sink, role: Role::FakeSink, name: None, part };
    let tail = nodes.push(sink_node);
    assert((g.nodes + nodes).push(sink_node) =~= g.nodes + tail);
    Seq::filter_distributes_over_add(g.nodes, tail, node_outside(part));
    lemma_filter_keeps_all(g.nodes, node_outside(part));
    assert forall|i: int| 0 <= i < tail.len() implies !node_outside(part)(#[trigger] tail[i]) by {
        if i < nodes.len() {
            assert(tail[i] == nodes[i]);
        }
    }
    lemma_filter_drops_all(tail, node_outside(part));
    assert(g.nodes + Seq::<Node>::empty() =~= g.nodes);
}

/// The chain, the link into the pad and the link into the sink go with the
/// part; the other links stay.
proof fn lemma_detach_links(g: GraphView, chain: Seq<Link>, part: Part, to_pad: Link, to_sink: Link)
    requires
        g.free_of(part),
        forall|i: int| 0 <= i < chain.len() ==> (#[trigger] chain[i]).part == part,
        to_pad.part == part,
        to_sink.part == part,
    ensures
        (g.links + chain).push(to_pad).push(to_sink).filter(link_outside(part)) == g.links,
{
    let tail = chain.push(to_pad).push(to_sink);
    assert((g.links + chain).push(to_pad).push(to_sink) =~= g.links + tail);
    Seq::filter_distributes_over_add(g.links, tail, link_outside(part));
    lemma_filter_keeps_all(g.links, link_outside(part));
    assert forall|i: int| 0 <= i < tail.len() implies !link_outside(part)(#[trigger] tail[i]) by {
        if i < chain.len() {
            assert(tail[i] == chain[i]);
        }
    }
    lemma_filter_drops_all(tail, link_outside(part));
    assert(g.links + Seq::<Link>::empty() =~= g.links);
}

/// Releasing the part's pad leaves the other pads.
proof fn lemma_detach_pads(g: GraphView, part: Part, p: Pad)
    requires
        g.free_of(part),
        p.part == part,
    ensures
        g.pads.push(p).filter(pad_outside(part)) == g.pads,
{
    assert(g.pads.push(p) =~= g.pads + seq![p]);
    Seq::filter_distributes_over_add(g.pads, seq![p], pad_outside(part));
    lemma_filter_keeps_all(g.pads, pad_outside(part));
    lemma_filter_drops_all(seq![p], pad_outside(part));
    assert(g.pads + Seq::<Pad>::empty() =~= g.pads);
}

/// Toggling a branch on and then off again, both toggles carried out by the
/// engine, returns the graph's nodes, links and request pads, and so the
/// node count and the mixers' pad counts, to what they were.
#[verifier::rlimit(60)]
pub proof fn lemma_toggle_round_trip(s: StreamView, b: Branch)
    requires
        s.well_formed(),
        s.state(b) == BranchState::Off,
        s.toggle_error(b) is None,
    ensures
        ({
            let on = s.begun(b).completed(b, true);
            let off = on.begun(b).completed(b, true);
            &&& on.state(b) is On
            &&& off.state(b) == BranchState::Off
            &&& off.graph.nodes == s.graph.nodes
            &&& off.graph.links == s.graph.links
            &&& off.graph.pads == s.graph.pads
            &&& off.graph.nodes.len() == s.graph.nodes.len()
            &&& forall|m: u64| off.graph.pad_count(m) == s.graph.pad_count(m)
        }),
{
    let g = s.graph;
    let first = g.next_id as u64;
    let k = branch_size(b);
    let part = part_of(b);
    let nodes = branch_nodes(b, s.sources, first);
    let mixer = s.mixer(b)->Some_0;
    let out = (first + k - 1) as u64;
    let pad = (first + k) as u64;
    let sink = (g.next_id + k + 1) as u64;
    lemma_branch_nodes(b, s.sources, first);
    assert(nodes.last().id == out);
    let chain = chain_links(nodes, part);
    lemma_chain_links(nodes, part);
    let to_pad = Link { from: out, to: Target::Pad(pad), part };
    let to_sink = Link { from: out, to: Target::Node(sink), part };
    let p = Pad { id: pad, mixer, part };
    lemma_detach_nodes(g, nodes, part, sink);
    lemma_detach_links(g, chain, part, to_pad, to_sink);
    lemma_detach_pads(g, part, p);
    let s1 = s.begun(b);
    assert(s1.state(b) == BranchState::Starting { first });
    assert(s1.graph.nodes == g.nodes && s1.graph.links == g.links && s1.graph.pads == g.pads);
    assert(s1.graph.next_id == g.next_id + k + 1);
    assert(s1.mixer(b) == s.mixer(b));
    assert(s1.sources == s.sources);
    let on = s1.completed(b, true);
    assert(on.state(b) == BranchState::On { first });
    assert(on.graph.nodes == g.nodes + nodes);
    assert(on.graph.links == (g.links + chain).push(to_pad));
    assert(on.graph.pads == g.pads.push(p));
    assert(on.graph.next_id == g.next_id + k + 1);
    let s3 = on.begun(b);
    assert(s3.state(b) == BranchState::Stopping { first, sink });
    assert(s3.graph.nodes == on.graph.nodes && s3.graph.links == on.graph.links && s3.graph.pads == on.graph.pads);
    let off = s3.completed(b, true);
    assert(off.graph == detach(s3.graph, part, out, pad, sink));
    assert(off.graph.nodes == g.nodes);
    assert(off.graph.links == g.links);
    assert(off.graph.pads == g.pads);
}

/// Once the publish branch has been added, adding it again, to the same
/// destination or another, changes nothing and performs nothing.
pub proof fn lemma_publish_idempotent(s: StreamView, first_location: String, location: String)
    requires
        s.well_formed(),
        publish_step(s, first_location).0 is Ok,
    ensures
        ({
            let s1 = publish_step(s, first_location).1;
            &&& publish_step(s1, location).1 == s1
            &&& publish_step(s1, location).0 == Ok::<Seq<Step>, StreamError>(Seq::empty())
        }),
{
}

/// While a toggle of a branch is in flight, a further toggle of it is
/// declined, and nothing of the branch is built until the engine has
/// carried the first one out.
pub proof fn lemma_single_flight(s: StreamView, b: Branch)
    requires
        s.well_formed(),
        s.toggle_error(b) is None,
    ensures
        s.begun(b).toggle_error(b) == Some(StreamError::Busy),
        s.begun(b).graph.nodes == s.graph.nodes,
        s.begun(b).graph.links == s.graph.links,
        s.begun(b).graph.pads == s.graph.pads,
{
}

} // verus!
