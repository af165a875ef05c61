//! Plans: the ordered operations on the live engine that build or reshape
//! the media graph. The orchestrator decides a plan; the caller performs it
//! on the engine and reports back whether it succeeded.
use vstd::prelude::*;
use crate::graph::{Node, Role, Name};

verus! {

/// Pixel formats used on the graph's raw video links.
#[derive(Clone, Copy, Debug, PartialEq, Eq, Structural)]
pub enum PixelFormat {
    Uyvy,
    Bgra,
    I420,
}

/// The capability presets the graph's caps filters are set to.
#[derive(Clone, Copy, Debug, PartialEq, Eq, Structural)]
pub enum CapsPreset {
    /// Raw capture video: 1280x720 at 30 frames per second, UYVY.
    Capture,
    /// Preview frames: 5 frames per second, BGRA.
    Preview,
    /// The camera picture, scaled to 360 pixels wide.
    CameraScale,
    /// Raw stereo audio at 48 kHz.
    Stereo,
    /// Encoder input: 30 frames per second, I420.
    Encoder,
}

/// The fields of a raw media capability.
#[derive(Clone, Copy, Debug, PartialEq, Eq, Structural)]
pub struct Caps {
    pub video: bool,
    pub width: Option<u32>,
    pub height: Option<u32>,
    pub framerate: Option<u32>,
    pub format: Option<PixelFormat>,
    pub channels: Option<u32>,
    pub rate: Option<u32>,
}

/// The width and height of a raw capture frame.
pub const FRAME_WIDTH: u32 = 1280;
pub const FRAME_HEIGHT: u32 = 720;

/// Interval between loudness measurements, in nanoseconds (30 ms).
pub const LEVEL_INTERVAL_NS: u64 = 30_000_000;

/// A raw video capability.
pub open spec fn video_caps(width: Option<u32>, height: Option<u32>, framerate: Option<u32>, format: Option<PixelFormat>) -> Caps {
    Caps { video: true, width, height, framerate, format, channels: None, rate: None }
}

/// The fields of each preset.
pub open spec fn preset_caps(p: CapsPreset) -> Caps {
    match p {
        CapsPreset::Capture => video_caps(Some(FRAME_WIDTH), Some(FRAME_HEIGHT), Some(30), Some(PixelFormat::Uyvy)),
        CapsPreset::Preview => video_caps(None, None, Some(5), Some(PixelFormat::Bgra)),
        CapsPreset::CameraScale => video_caps(Some(360), None, None, None),
        CapsPreset::Stereo => Caps {
            video: false,
            width: None,
            height: None,
            framerate: None,
            format: None,
            channels: Some(2),
            rate: Some(48000),
        },
        CapsPreset::Encoder => video_caps(None, None, Some(30), Some(PixelFormat::I420)),
    }
}

impl CapsPreset {
    /// The fields of the preset.
    pub fn caps(&self) -> (r: Caps)
        ensures
            r == preset_caps(*self),
    {
        match self {
            CapsPreset::Capture => Caps {
                video: true,
                width: Some(FRAME_WIDTH),
                height: Some(FRAME_HEIGHT),
                framerate: Some(30),
                format: Some(PixelFormat::Uyvy),
                channels: None,
                rate: None,
            },
            CapsPreset::Preview => Caps {
                video: true,
                width: None,
                height: None,
                framerate: Some(5),
                format: Some(PixelFormat::Bgra),
                channels: None,
                rate: None,
            },
            CapsPreset::CameraScale => Caps {
                video: true,
                width: Some(360),
                height: None,
                framerate: None,
                format: None,
                channels: None,
                rate: None,
            },
            CapsPreset::Stereo => Caps {
                video: false,
                width: None,
                height: None,
                framerate: None,
                format: None,
                channels: Some(2),
                rate: Some(48000),
            },
            CapsPreset::Encoder => Caps {
                video: true,
                width: None,
                height: None,
                framerate: Some(30),
                format: Some(PixelFormat::I420),
                channels: None,
                rate: None,
            },
        }
    }
}

/// A property set on a node before it joins the graph.
#[derive(Clone, Debug, PartialEq)]
pub enum Prop {
    /// The capture device the source reads.
    Device(String),
    /// The caps a caps filter lets through.
    Caps(CapsPreset),
    /// A loudness probe posts its measurements as messages.
    PostMessages,
    /// A loudness probe measures every so many nanoseconds.
    Interval(u64),
    /// A sink runs synchronised to the clock.
    Sync,
    /// A channel mixer mixes each channel fully into the other.
    ForceStereo,
    /// The network address a publishing sink sends to.
    Location(String),
}

/// One operation on the live engine. Nodes, pads and links are named by the
/// ids the orchestrator gave them.
#[derive(Clone, Debug, PartialEq)]
pub enum Step {
    /// Make a node of `role`, named `name` if given.
    Create { id: u64, role: Role, name: Option<Name> },
    /// Set a property of a node.
    Configure { id: u64, prop: Prop },
    /// Add the nodes with ids `first..=last` to the graph, then link each
    /// to the next.
    AddAndLink { first: u64, last: u64 },
    /// Add a node to the graph, unlinked.
    Add { id: u64 },
    /// Link node `from` to node `to`.
    Link { from: u64, to: u64 },
    /// Request a new input pad on the mixer `mixer`.
    RequestPad { mixer: u64, pad: u64 },
    /// Link node `from` to the request pad `pad`.
    LinkToPad { from: u64, pad: u64 },
    /// Unlink node `from` from the request pad `pad`.
    UnlinkFromPad { from: u64, pad: u64 },
    /// Send end-of-stream into the request pad `pad`.
    SendEos { pad: u64 },
    /// Release the request pad `pad` of the mixer `mixer`.
    ReleasePad { mixer: u64, pad: u64 },
    /// Stop the nodes with ids `first..=last` and remove them from the graph.
    Remove { first: u64, last: u64 },
    /// Hand every sample that reaches the sink node to the frame channel.
    InstallFrameSink { id: u64 },
    /// Bring the whole graph to the running state.
    SetPlaying,
}

/// The step that makes `node`.
pub open spec fn create_step(node: Node) -> Step {
    Step::Create { id: node.id, role: node.role, name: node.name }
}

/// The steps that make `nodes`, in order.
pub open spec fn creates(nodes: Seq<Node>) -> Seq<Step> {
    nodes.map_values(|n: Node| create_step(n))
}

/// Appends to `plan` the steps that make `nodes`.
pub fn push_creates(plan: &mut Vec<Step>, nodes: &Vec<Node>)
    ensures
        final(plan)@ == old(plan)@ + creates(nodes@),
{
    let mut i: usize = 0;
    while i < nodes.len()
        invariant
            i <= nodes@.len(),
            plan@ == old(plan)@ + creates(nodes@.subrange(0, i as int)),
        decreases nodes@.len() - i,
    {
        let n = nodes[i];
        plan.push(Step::Create { id: n.id, role: n.role, name: n.name });
        proof {
            assert(creates(nodes@.subrange(0, i + 1)) =~= creates(nodes@.subrange(0, i as int)).push(
                create_step(n),
            ));
        }
        i = i + 1;
    }
    assert(nodes@.subrange(0, nodes@.len() as int) =~= nodes@);
}

} // verus!
