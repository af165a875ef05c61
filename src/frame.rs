//! Preview frames handed from the frame sink to the presentation layer.
use vstd::prelude::*;
use crate::plan::{FRAME_WIDTH, FRAME_HEIGHT};

verus! {

/// A raw preview frame: BGRA pixels, row by row.
#[derive(Clone, Debug)]
pub struct Frame {
    pub width: u32,
    pub height: u32,
    pub pixels: Vec<u8>,
}

impl Frame {
    /// The frame shown before the first sample arrives: one black,
    /// transparent pixel.
    pub fn blank() -> (r: Frame)
        ensures
            r.width == 1,
            r.height == 1,
            r.pixels@ == seq![0u8, 0u8, 0u8, 0u8],
    {
        let pixels = vec![0u8, 0u8, 0u8, 0u8];
        assert(pixels@ =~= seq![0u8, 0u8, 0u8, 0u8]);
        Frame { width: 1, height: 1, pixels }
    }

    /// The frame made of one sample's pixel buffer at capture size, if the
    /// buffer could be read.
    pub fn from_sample(buffer: Option<Vec<u8>>) -> (r: Option<Frame>)
        ensures
            buffer is None ==> r is None,
            buffer is Some ==> r is Some && r->Some_0.width == FRAME_WIDTH && r->Some_0.height == FRAME_HEIGHT
                && r->Some_0.pixels@ == buffer->Some_0@,
    {
        match buffer {
            Some(pixels) => Some(Frame { width: FRAME_WIDTH, height: FRAME_HEIGHT, pixels }),
            None => None,
        }
    }
}

} // verus!
