//! A model of the media graph: the processing nodes it holds, the links
//! between them and the request pads allocated on its mixers. Every node,
//! link and pad belongs to one part of the graph (a fixed branch, a
//! toggle-able branch or the publish branch), and a toggle-able branch is
//! removed by removing its part.
use vstd::prelude::*;

verus! {

/// The kind of processing node, by the element it is made from.
#[derive(Clone, Copy, Debug, PartialEq, Eq, Structural)]
pub enum Role {
    V4l2Src,
    VideoTestSrc,
    AlsaSrc,
    AudioTestSrc,
    CapsFilter,
    GlUpload,
    GlVideoMixer,
    Tee,
    Queue,
    GlColorConvert,
    GlDownload,
    VideoRate,
    AppSink,
    AudioConvert,
    AudioResample,
    AudioChannelMix,
    AudioMixer,
    Level,
    FakeSink,
    V4l2H264Enc,
    H264Parse,
    VoAacEnc,
    AacParse,
    FlvMux,
    RtmpSink,
}

/// The element factory of each role.
pub open spec fn factory_of(role: Role) -> &'static str {
    match role {
        Role::V4l2Src => "v4l2src",
        Role::VideoTestSrc => "videotestsrc",
        Role::AlsaSrc => "alsasrc",
        Role::AudioTestSrc => "audiotestsrc",
        Role::CapsFilter => "capsfilter",
        Role::GlUpload => "glupload",
        Role::GlVideoMixer => "glvideomixer",
        Role::Tee => "tee",
        Role::Queue => "queue",
        Role::GlColorConvert => "glcolorconvert",
        Role::GlDownload => "gldownload",
        Role::VideoRate => "videorate",
        Role::AppSink => "appsink",
        Role::AudioConvert => "audioconvert",
        Role::AudioResample => "audioresample",
        Role::AudioChannelMix => "audiochannelmix",
        Role::AudioMixer => "audiomixer",
        Role::Level => "level",
        Role::FakeSink => "fakesink",
        Role::V4l2H264Enc => "v4l2h264enc",
        Role::H264Parse => "h264parse",
        Role::VoAacEnc => "voaacenc",
        Role::AacParse => "aacparse",
        Role::FlvMux => "flvmux",
        Role::RtmpSink => "rtmpsink",
    }
}

impl Role {
    /// The element factory that makes a node of this role.
    pub fn factory(&self) -> (r: &'static str)
        ensures
            r == factory_of(*self),
    {
        match self {
            Role::V4l2Src => "v4l2src",
            Role::VideoTestSrc => "videotestsrc",
            Role::AlsaSrc => "alsasrc",
            Role::AudioTestSrc => "audiotestsrc",
            Role::CapsFilter => "capsfilter",
            Role::GlUpload => "glupload",
            Role::GlVideoMixer => "glvideomixer",
            Role::Tee => "tee",
            Role::Queue => "queue",
            Role::GlColorConvert => "glcolorconvert",
            Role::GlDownload => "gldownload",
            Role::VideoRate => "videorate",
            Role::AppSink => "appsink",
            Role::AudioConvert => "audioconvert",
            Role::AudioResample => "audioresample",
            Role::AudioChannelMix => "audiochannelmix",
            Role::AudioMixer => "audiomixer",
            Role::Level => "level",
            Role::FakeSink => "fakesink",
            Role::V4l2H264Enc => "v4l2h264enc",
            Role::H264Parse => "h264parse",
            Role::VoAacEnc => "voaacenc",
            Role::AacParse => "aacparse",
            Role::FlvMux => "flvmux",
            Role::RtmpSink => "rtmpsink",
        }
    }
}

/// The well-known names of the nodes that are found again later.
#[derive(Clone, Copy, Debug, PartialEq, Eq, Structural)]
pub enum Name {
    VideoMix,
    VideoTee,
    AudioMix,
    AudioTee,
    OutputLevel,
    Mux,
    CameraSrc,
    CameraCaps,
    CameraUpload,
    MicSrc,
    MicQueue0,
    MicConvert,
    MicResample,
    MicChmix,
    MicCaps,
    MicLevel,
    MicQueue,
}

/// The name each well-known node carries in the graph.
pub open spec fn name_of(name: Name) -> &'static str {
    match name {
        Name::VideoMix => "videomix",
        Name::VideoTee => "videotee",
        Name::AudioMix => "audiomix",
        Name::AudioTee => "audiotee",
        Name::OutputLevel => "output_level",
        Name::Mux => "mux",
        Name::CameraSrc => "camera_src",
        Name::CameraCaps => "camera_caps",
        Name::CameraUpload => "camera_upload",
        Name::MicSrc => "mic_src",
        Name::MicQueue0 => "mic_queue0",
        Name::MicConvert => "mic_convert",
        Name::MicResample => "mic_resample",
        Name::MicChmix => "mic_chmix",
        Name::MicCaps => "mic_caps",
        Name::MicLevel => "mic_level",
        Name::MicQueue => "mic_queue",
    }
}

impl Name {
    /// The name the node carries in the graph.
    pub fn as_str(&self) -> (r: &'static str)
        ensures
            r == name_of(*self),
    {
        match self {
            Name::VideoMix => "videomix",
            Name::VideoTee => "videotee",
            Name::AudioMix => "audiomix",
            Name::AudioTee => "audiotee",
            Name::OutputLevel => "output_level",
            Name::Mux => "mux",
            Name::CameraSrc => "camera_src",
            Name::CameraCaps => "camera_caps",
            Name::CameraUpload => "camera_upload",
            Name::MicSrc => "mic_src",
            Name::MicQueue0 => "mic_queue0",
            Name::MicConvert => "mic_convert",
            Name::MicResample => "mic_resample",
            Name::MicChmix => "mic_chmix",
            Name::MicCaps => "mic_caps",
            Name::MicLevel => "mic_level",
            Name::MicQueue => "mic_queue",
        }
    }
}

/// The part of the graph a node, link or pad belongs to.
#[derive(Clone, Copy, Debug, PartialEq, Eq, Structural)]
pub enum Part {
    Video,
    Audio,
    Camera,
    Mic,
    Publish,
}

/// A processing node.
#[derive(Clone, Copy, Debug, PartialEq, Eq, Structural)]
pub struct Node {
    pub id: u64,
    pub role: Role,
    pub name: Option<Name>,
    pub part: Part,
}

/// Where a link ends: at a node, or at a request pad of a mixer.
#[derive(Clone, Copy, Debug, PartialEq, Eq, Structural)]
pub enum Target {
    Node(u64),
    Pad(u64),
}

/// A link from the output of node `from` to `to`.
#[derive(Clone, Copy, Debug, PartialEq, Eq, Structural)]
pub struct Link {
    pub from: u64,
    pub to: Target,
    pub part: Part,
}

/// A request pad allocated on the mixer node `mixer`.
#[derive(Clone, Copy, Debug, PartialEq, Eq, Structural)]
pub struct Pad {
    pub id: u64,
    pub mixer: u64,
    pub part: Part,
}

/// The mathematical value of a graph.
pub struct GraphView {
    pub nodes: Seq<Node>,
    pub links: Seq<Link>,
    pub pads: Seq<Pad>,
    pub next_id: nat,
}

/// Holds the nodes that do not belong to `part`.
pub open spec fn node_outside(part: Part) -> spec_fn(Node) -> bool {
    |n: Node| n.part != part
}

/// Holds the links that do not belong to `part`.
pub open spec fn link_outside(part: Part) -> spec_fn(Link) -> bool {
    |l: Link| l.part != part
}

/// Holds the pads that do not belong to `part`.
pub open spec fn pad_outside(part: Part) -> spec_fn(Pad) -> bool {
    |p: Pad| p.part != part
}

/// Holds the pads allocated on `mixer`.
pub open spec fn pad_on(mixer: u64) -> spec_fn(Pad) -> bool {
    |p: Pad| p.mixer == mixer
}

/// The links that chain `nodes` in order, each to the next.
pub open spec fn chain_links(nodes: Seq<Node>, part: Part) -> Seq<Link>
    decreases nodes.len(),
{
    if nodes.len() < 2 {
        Seq::empty()
    } else {
        chain_links(nodes.drop_last(), part).push(
            Link { from: nodes[nodes.len() - 2].id, to: Target::Node(nodes.last().id), part },
        )
    }
}

impl GraphView {
    /// Every id in use was handed out before `next_id`.
    pub open spec fn well_formed(self) -> bool {
        &&& forall|i: int| 0 <= i < self.nodes.len() ==> self.nodes[i].id < self.next_id
        &&& forall|i: int| 0 <= i < self.links.len() ==> self.links[i].from < self.next_id
        &&& forall|i: int| 0 <= i < self.pads.len() ==> self.pads[i].id < self.next_id
    }

    /// Nothing in the graph belongs to `part`.
    pub open spec fn free_of(self, part: Part) -> bool {
        &&& forall|i: int| 0 <= i < self.nodes.len() ==> self.nodes[i].part != part
        &&& forall|i: int| 0 <= i < self.links.len() ==> self.links[i].part != part
        &&& forall|i: int| 0 <= i < self.pads.len() ==> self.pads[i].part != part
    }

    /// The number of request pads allocated on `mixer`.
    pub open spec fn pad_count(self, mixer: u64) -> nat {
        self.pads.filter(pad_on(mixer)).len()
    }

    /// The graph with `nodes` added and chained in order.
    pub open spec fn with_chain(self, nodes: Seq<Node>, part: Part) -> GraphView {
        GraphView {
            nodes: self.nodes + nodes,
            links: self.links + chain_links(nodes, part),
            ..self
        }
    }
}

/// The media graph.
pub struct Graph {
    nodes: Vec<Node>,
    links: Vec<Link>,
    pads: Vec<Pad>,
    next_id: u64,
}

impl View for Graph {
    type V = GraphView;

    closed spec fn view(&self) -> GraphView {
        GraphView {
            nodes: self.nodes@,
            links: self.links@,
            pads: self.pads@,
            next_id: self.next_id as nat,
        }
    }
}

/// Each link of a chain runs from one node to the next.
pub proof fn lemma_chain_links(nodes: Seq<Node>, part: Part)
    ensures
        nodes.len() >= 1 ==> chain_links(nodes, part).len() == nodes.len() - 1,
        nodes.len() == 0 ==> chain_links(nodes, part).len() == 0,
        forall|i: int| 0 <= i < chain_links(nodes, part).len() ==> {
            &&& (#[trigger] chain_links(nodes, part)[i]).from == nodes[i].id
            &&& chain_links(nodes, part)[i].to == Target::Node(nodes[i + 1].id)
            &&& chain_links(nodes, part)[i].part == part
        },
    decreases nodes.len(),
{
    if nodes.len() >= 2 {
        let d = nodes.drop_last();
        lemma_chain_links(d, part);
        let c = chain_links(nodes, part);
        let last = Link { from: nodes[nodes.len() - 2].id, to: Target::Node(nodes.last().id), part };
        assert(c == chain_links(d, part).push(last));
        assert forall|i: int| 0 <= i < c.len() implies {
            &&& (#[trigger] c[i]).from == nodes[i].id
            &&& c[i].to == Target::Node(nodes[i + 1].id)
            &&& c[i].part == part
        } by {
            if i < chain_links(d, part).len() {
                assert(c[i] == chain_links(d, part)[i]);
                assert(chain_links(d, part)[i].from == d[i].id);
                assert(chain_links(d, part)[i].to == Target::Node(d[i + 1].id));
                assert(d[i] == nodes[i]);
                assert(d[i + 1] == nodes[i + 1]);
            } else {
                assert(c[i] == last);
            }
        }
    } else {
        assert(chain_links(nodes, part).len() == 0);
    }
}

/// Filtering a sequence that the predicate holds on throughout changes nothing.
pub proof fn lemma_filter_keeps_all<A>(s: Seq<A>, pred: spec_fn(A) -> bool)
    requires
        forall|i: int| 0 <= i < s.len() ==> pred(s[i]),
    ensures
        s.filter(pred) == s,
    decreases s.len(),
{
    reveal_with_fuel(Seq::filter, 1);
    if s.len() > 0 {
        lemma_filter_keeps_all(s.drop_last(), pred);
        assert(s.drop_last().push(s.last()) =~= s);
    } else {
        assert(s =~= Seq::<A>::empty());
    }
}

/// Filtering a sequence that the predicate fails on throughout leaves nothing.
pub proof fn lemma_filter_drops_all<A>(s: Seq<A>, pred: spec_fn(A) -> bool)
    requires
        forall|i: int| 0 <= i < s.len() ==> !pred(s[i]),
    ensures
        s.filter(pred) == Seq::<A>::empty(),
    decreases s.len(),
{
    reveal_with_fuel(Seq::filter, 1);
    if s.len() > 0 {
        lemma_filter_drops_all(s.drop_last(), pred);
    }
}

/// One more element of a prefix, in a filter.
proof fn lemma_filter_prefix_step<A>(s: Seq<A>, pred: spec_fn(A) -> bool, i: int)
    requires
        0 <= i < s.len(),
    ensures
        s.subrange(0, i + 1).filter(pred) == if pred(s[i]) {
            s.subrange(0, i).filter(pred).push(s[i])
        } else {
            s.subrange(0, i).filter(pred)
        },
{
    reveal_with_fuel(Seq::filter, 1);
    assert(s.subrange(0, i + 1).drop_last() =~= s.subrange(0, i));
}

/// The nodes of `v` outside `part`.
fn nodes_outside(v: &Vec<Node>, part: Part) -> (r: Vec<Node>)
    ensures
        r@ == v@.filter(node_outside(part)),
{
    let mut r: Vec<Node> = Vec::new();
    let mut i: usize = 0;
    while i < v.len()
        invariant
            i <= v@.len(),
            r@ == v@.subrange(0, i as int).filter(node_outside(part)),
        decreases v@.len() - i,
    {
        proof { lemma_filter_prefix_step(v@, node_outside(part), i as int); }
        if v[i].part != part {
            r.push(v[i]);
        }
        i = i + 1;
    }
    assert(v@.subrange(0, v@.len() as int) =~= v@);
    r
}

/// The links of `v` outside `part`.
fn links_outside(v: &Vec<Link>, part: Part) -> (r: Vec<Link>)
    ensures
        r@ == v@.filter(link_outside(part)),
{
    let mut r: Vec<Link> = Vec::new();
    let mut i: usize = 0;
    while i < v.len()
        invariant
            i <= v@.len(),
            r@ == v@.subrange(0, i as int).filter(link_outside(part)),
        decreases v@.len() - i,
    {
        proof { lemma_filter_prefix_step(v@, link_outside(part), i as int); }
        if v[i].part != part {
            r.push(v[i]);
        }
        i = i + 1;
    }
    assert(v@.subrange(0, v@.len() as int) =~= v@);
    r
}

/// The pads of `v` outside `part`.
fn pads_outside(v: &Vec<Pad>, part: Part) -> (r: Vec<Pad>)
    ensures
        r@ == v@.filter(pad_outside(part)),
{
    let mut r: Vec<Pad> = Vec::new();
    let mut i: usize = 0;
    while i < v.len()
        invariant
            i <= v@.len(),
            r@ == v@.subrange(0, i as int).filter(pad_outside(part)),
        decreases v@.len() - i,
    {
        proof { lemma_filter_prefix_step(v@, pad_outside(part), i as int); }
        if v[i].part != part {
            r.push(v[i]);
        }
        i = i + 1;
    }
    assert(v@.subrange(0, v@.len() as int) =~= v@);
    r
}

/// What holds of every element of a sequence holds of every element of a
/// filter of it, and so does the filter's predicate.
pub proof fn lemma_filter_preserves<A>(s: Seq<A>, pred: spec_fn(A) -> bool, q: spec_fn(A) -> bool)
    requires
        forall|i: int| 0 <= i < s.len() ==> q(s[i]),
    ensures
        forall|i: int| 0 <= i < s.filter(pred).len() ==> q(#[trigger] s.filter(pred)[i]) && pred(s.filter(pred)[i]),
    decreases s.len(),
{
    reveal_with_fuel(Seq::filter, 1);
    if s.len() > 0 {
        lemma_filter_preserves(s.drop_last(), pred, q);
        let f = s.filter(pred);
        let d = s.drop_last().filter(pred);
        assert forall|i: int| 0 <= i < f.len() implies q(#[trigger] f[i]) && pred(f[i]) by {
            if i < d.len() {
                assert(f[i] == d[i]);
            } else {
                assert(f[i] == s.last());
            }
        }
    }
}

impl Graph {
    /// An empty graph.
    pub fn new() -> (g: Graph)
        ensures
            g@.nodes == Seq::<Node>::empty(),
            g@.links == Seq::<Link>::empty(),
            g@.pads == Seq::<Pad>::empty(),
            g@.next_id == 0,
    {
        Graph { nodes: Vec::new(), links: Vec::new(), pads: Vec::new(), next_id: 0 }
    }

    /// The first id not handed out yet.
    pub fn next_id(&self) -> (r: u64)
        ensures
            r == self@.next_id,
    {
        self.next_id
    }

    /// The number of nodes in the graph.
    pub fn node_count(&self) -> (r: usize)
        ensures
            r == self@.nodes.len(),
    {
        self.nodes.len()
    }

    /// The number of links in the graph.
    pub fn link_count(&self) -> (r: usize)
        ensures
            r == self@.links.len(),
    {
        self.links.len()
    }

    /// The nodes of the graph, in the order they were added.
    pub fn nodes(&self) -> (r: &Vec<Node>)
        ensures
            r@ == self@.nodes,
    {
        &self.nodes
    }

    /// The request pads allocated on the graph's mixers.
    pub fn pads(&self) -> (r: &Vec<Pad>)
        ensures
            r@ == self@.pads,
    {
        &self.pads
    }

    /// The number of request pads allocated on `mixer`.
    pub fn pad_count(&self, mixer: u64) -> (r: usize)
        ensures
            r == self@.pad_count(mixer),
    {
        let mut n: usize = 0;
        let mut i: usize = 0;
        while i < self.pads.len()
            invariant
                i <= self.pads@.len(),
                n == self.pads@.subrange(0, i as int).filter(pad_on(mixer)).len(),
                n <= i,
            decreases self.pads@.len() - i,
        {
            proof { lemma_filter_prefix_step(self.pads@, pad_on(mixer), i as int); }
            if self.pads[i].mixer == mixer {
                n = n + 1;
            }
            i = i + 1;
        }
        assert(self.pads@.subrange(0, self.pads@.len() as int) =~= self.pads@);
        n
    }

    /// Hands out `n` fresh ids, the first of which is returned.
    pub fn reserve(&mut self, n: u64) -> (first: u64)
        requires
            old(self)@.next_id + n <= u64::MAX,
        ensures
            first == old(self)@.next_id,
            final(self)@ == (GraphView { next_id: (old(self)@.next_id + n) as nat, ..old(self)@ }),
            old(self)@.well_formed() ==> final(self)@.well_formed(),
            forall|q: Part| old(self)@.free_of(q) ==> final(self)@.free_of(q),
    {
        let first = self.next_id;
        self.next_id = self.next_id + n;
        first
    }

    /// Adds `nodes` to the graph, then links each to the next.
    pub fn add_chain(&mut self, nodes: &Vec<Node>, part: Part)
        requires
            forall|i: int| 0 <= i < nodes@.len() ==> nodes@[i].id < old(self)@.next_id && nodes@[i].part == part,
        ensures
            final(self)@ == old(self)@.with_chain(nodes@, part),
            old(self)@.well_formed() ==> final(self)@.well_formed(),
            forall|q: Part| q != part && old(self)@.free_of(q) ==> final(self)@.free_of(q),
    {
        proof { lemma_chain_links(nodes@, part); }
        let mut i: usize = 0;
        while i < nodes.len()
            invariant
                i <= nodes@.len(),
                self.nodes@ == old(self).nodes@ + nodes@.subrange(0, i as int),
                self.links@ == old(self).links@ + chain_links(nodes@.subrange(0, i as int), part),
                self.pads@ == old(self).pads@,
                self.next_id == old(self).next_id,
            decreases nodes@.len() - i,
        {
            let node = nodes[i];
            proof {
                assert(nodes@.subrange(0, i + 1).drop_last() =~= nodes@.subrange(0, i as int));
                assert(old(self).nodes@ + nodes@.subrange(0, i + 1) =~= (old(self).nodes@
                    + nodes@.subrange(0, i as int)).push(node));
            }
            self.nodes.push(node);
            if i > 0 {
                let prev = nodes[i - 1];
                self.links.push(Link { from: prev.id, to: Target::Node(node.id), part });
                assert(old(self).links@ + chain_links(nodes@.subrange(0, i + 1), part) =~= (
                old(self).links@ + chain_links(nodes@.subrange(0, i as int), part)).push(
                    Link { from: prev.id, to: Target::Node(node.id), part },
                ));
            } else {
                assert(chain_links(nodes@.subrange(0, 1), part) =~= Seq::<Link>::empty());
            }
            i = i + 1;
        }
        assert(nodes@.subrange(0, nodes@.len() as int) =~= nodes@);
    }

    /// Adds `node` to the graph, unlinked.
    pub fn add_node(&mut self, node: Node)
        requires
            node.id < old(self)@.next_id,
        ensures
            final(self)@ == (GraphView { nodes: old(self)@.nodes.push(node), ..old(self)@ }),
            old(self)@.well_formed() ==> final(self)@.well_formed(),
            forall|q: Part| q != node.part && old(self)@.free_of(q) ==> final(self)@.free_of(q),
    {
        self.nodes.push(node);
    }

    /// Adds `link` to the graph.
    pub fn link(&mut self, link: Link)
        requires
            link.from < old(self)@.next_id,
        ensures
            final(self)@ == (GraphView { links: old(self)@.links.push(link), ..old(self)@ }),
            old(self)@.well_formed() ==> final(self)@.well_formed(),
            forall|q: Part| q != link.part && old(self)@.free_of(q) ==> final(self)@.free_of(q),
    {
        self.links.push(link);
    }

    /// Allocates the request pad `pad` on its mixer.
    pub fn request_pad(&mut self, pad: Pad)
        requires
            pad.id < old(self)@.next_id,
        ensures
            final(self)@ == (GraphView { pads: old(self)@.pads.push(pad), ..old(self)@ }),
            old(self)@.well_formed() ==> final(self)@.well_formed(),
            forall|q: Part| q != pad.part && old(self)@.free_of(q) ==> final(self)@.free_of(q),
    {
        self.pads.push(pad);
    }

    /// Removes every node, link and pad of `part`.
    pub fn remove_part(&mut self, part: Part)
        ensures
            final(self)@ == (GraphView {
                nodes: old(self)@.nodes.filter(node_outside(part)),
                links: old(self)@.links.filter(link_outside(part)),
                pads: old(self)@.pads.filter(pad_outside(part)),
                next_id: old(self)@.next_id,
            }),
            old(self)@.well_formed() ==> final(self)@.well_formed(),
            final(self)@.free_of(part),
            forall|q: Part| old(self)@.free_of(q) ==> final(self)@.free_of(q),
    {
        let ghost g = self@;
        self.nodes = nodes_outside(&self.nodes, part);
        self.links = links_outside(&self.links, part);
        self.pads = pads_outside(&self.pads, part);
        proof {
            let n = g.next_id;
            if g.well_formed() {
                lemma_filter_preserves(g.nodes, node_outside(part), |x: Node| x.id < n);
                lemma_filter_preserves(g.links, link_outside(part), |x: Link| x.from < n);
                lemma_filter_preserves(g.pads, pad_outside(part), |x: Pad| x.id < n);
            }
            lemma_filter_preserves(g.nodes, node_outside(part), |x: Node| true);
            lemma_filter_preserves(g.links, link_outside(part), |x: Link| true);
            lemma_filter_preserves(g.pads, pad_outside(part), |x: Pad| true);
            assert forall|q: Part| g.free_of(q) implies self@.free_of(q) by {
                lemma_filter_preserves(g.nodes, node_outside(part), |x: Node| x.part != q);
                lemma_filter_preserves(g.links, link_outside(part), |x: Link| x.part != q);
                lemma_filter_preserves(g.pads, pad_outside(part), |x: Pad| x.part != q);
            }
        }
    }
}

} // verus!
