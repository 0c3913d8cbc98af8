//! Layouts: drawable units that compose other drawable units.

use crate::frame::FrameBuffer;
use crate::widgets::joke::{fetched_model, joke_on_frame, refreshed, JokeData, JokeFullWidget, JokeModel};
use crate::widgets::{Fetched, Widget};
use vstd::prelude::*;

verus! {

/// A composite of one or more drawable units. It holds no drawing state of
/// its own: refreshing and drawing go to its children, in a fixed order.
pub trait Layout {
    /// The decoded content that a refresh feeds to the children.
    type Content;

    /// The frame that `draw` leaves, given the frame before.
    spec fn drawn(&self, before: Seq<u8>) -> Seq<u8>;

    /// Draws the children onto the frame.
    fn draw(&self, display: &mut FrameBuffer)
        requires
            old(display).wf(),
        ensures
            final(display)@ == self.drawn(old(display)@),
            final(display).wf(),
    ;

    /// Hands what the firmware fetched to the children.
    fn refresh_data(&mut self, fetched: Fetched<Self::Content>);
}

/// The layout with the joke as its one child.
pub struct JokeLayout {
    joke_widget: JokeFullWidget,
}

impl View for JokeLayout {
    type V = JokeModel;

    closed spec fn view(&self) -> JokeModel {
        self.joke_widget@
    }
}

impl JokeLayout {
    /// A layout whose joke is still empty.
    pub fn new() -> (layout: JokeLayout)
        ensures
            layout@ == (JokeModel { error: false, joke: Seq::<char>::empty() }),
    {
        JokeLayout { joke_widget: JokeFullWidget::new() }
    }

    /// The layout's child.
    pub fn joke_widget(&self) -> (widget: &JokeFullWidget)
        ensures
            widget@ == self@,
    {
        &self.joke_widget
    }
}

impl Layout for JokeLayout {
    type Content = JokeData;

    open spec fn drawn(&self, before: Seq<u8>) -> Seq<u8> {
        joke_on_frame(self@, before)
    }

    fn draw(&self, display: &mut FrameBuffer) {
        self.joke_widget.draw(display);
    }

    fn refresh_data(&mut self, fetched: Fetched<JokeData>)
        ensures
            final(self)@ == refreshed(old(self)@, fetched_model(fetched)),
    {
        self.joke_widget.refresh_data(fetched);
    }
}

} // verus!
