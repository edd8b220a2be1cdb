//! Framers: a stream of bytes split into frames.
use vstd::prelude::*;

use crate::types::{Frame, FrameView};

pub mod cobs_impl;
pub mod lines;
pub mod raw;
pub mod segments;
pub mod slip_impl;
pub mod streams;

verus! {

/// Frames, one by one.
pub open spec fn frames_view(frames: Seq<Frame>) -> Seq<FrameView> {
    frames.map_values(|f: Frame| f@)
}

/// Something that splits a stream of bytes into frames.
pub trait Framer: Sized {
    /// The frames that are complete once `bytes` have come in at that time.
    spec fn frames(&self, bytes: Seq<u8>, timestamp_us: u64) -> Seq<FrameView>;

    /// Whether the framer is as a new one.
    spec fn is_fresh(&self) -> bool;

    /// Takes the bytes in, and returns the frames that are complete.
    fn push(&mut self, bytes: &[u8], timestamp_us: u64) -> (r: Vec<Frame>)
        ensures
            frames_view(r@) == old(self).frames(bytes@, timestamp_us),
    ;

    /// Forgets what has come in.
    fn reset(&mut self)
        ensures
            final(self).is_fresh(),
    ;

    /// The name of the framer.
    fn name(&self) -> &'static str;
}

} // verus!
