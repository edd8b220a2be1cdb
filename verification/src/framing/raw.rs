//! Every chunk is a frame.
use vstd::prelude::*;

use crate::framing::{frames_view, Framer};
use crate::types::{Channel, Frame, FrameView};

verus! {

/// Makes a frame of every chunk as it comes.
#[derive(Debug)]
pub struct RawFramer;

impl RawFramer {
    /// A framer.
    pub fn new() -> RawFramer {
        RawFramer
    }
}

impl Default for RawFramer {
    fn default() -> RawFramer {
        RawFramer
    }
}

impl Framer for RawFramer {
    open spec fn frames(&self, bytes: Seq<u8>, timestamp_us: u64) -> Seq<FrameView> {
        if bytes.len() == 0 {
            Seq::empty()
        } else {
            seq![FrameView { bytes, timestamp_us, channel: Channel::Rx }]
        }
    }

    open spec fn is_fresh(&self) -> bool {
        true
    }

    fn push(&mut self, bytes: &[u8], timestamp_us: u64) -> (r: Vec<Frame>) {
        let mut frames: Vec<Frame> = Vec::new();
        if bytes.len() > 0 {
            frames.push(Frame::new_rx(vstd::slice::slice_to_vec(bytes), timestamp_us));
        }
        assert(frames_view(frames@) =~= self.frames(bytes@, timestamp_us));
        frames
    }

    fn reset(&mut self) {
    }

    fn name(&self) -> (r: &'static str)
        ensures
            r@ == "Raw"@,
    {
        "Raw"
    }
}

/// Every chunk that holds anything is a frame of its own, as it came and when it came; an
/// empty one is none.
pub proof fn law_chunks_are_frames(framer: RawFramer, bytes: Seq<u8>, now: u64)
    ensures
        bytes.len() == 0 ==> framer.frames(bytes, now).len() == 0,
        bytes.len() > 0 ==> framer.frames(bytes, now).len() == 1 && framer.frames(
            bytes,
            now,
        )[0].bytes == bytes && framer.frames(bytes, now)[0].timestamp_us == now && framer.frames(
            bytes,
            now,
        )[0].channel is Rx,
{
}

} // verus!
