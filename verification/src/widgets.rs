//! Drawable units: content that can be refreshed from the network and drawn
//! onto the frame.

use crate::frame::FrameBuffer;
use vstd::prelude::*;

pub mod joke;

verus! {

/// What a refresh brought back from the network, after decoding.
pub enum Fetched<T> {
    /// The request failed: there is no body.
    Unreachable,
    /// A body arrived that does not decode.
    Malformed,
    /// The decoded content.
    Decoded(T),
}

/// A drawable unit. It holds its own data, takes fresh data when the
/// firmware has fetched some, and draws itself onto the frame.
///
/// Drawing is a function of the unit's data and of the frame before: `drawn`
/// says which. The driver asks only that the frame keeps its size.
pub trait Widget {
    /// The decoded content that a refresh feeds to the unit.
    type Content;

    /// The frame that `draw` leaves, given the frame before.
    spec fn drawn(&self, before: Seq<u8>) -> Seq<u8>;

    /// Takes what the firmware fetched for this unit.
    fn refresh_data(&mut self, fetched: Fetched<Self::Content>);

    /// Draws the unit onto the frame.
    fn draw(&self, display: &mut FrameBuffer)
        requires
            old(display).wf(),
        ensures
            final(display)@ == self.drawn(old(display)@),
            final(display).wf(),
    ;
}

} // verus!
