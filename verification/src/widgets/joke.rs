//! A full-screen joke: one line of text fetched from a joke service.

use crate::frame::{text_on_frame, Color, FrameBuffer, TEXT_LENGTH_LIMIT};
use crate::widgets::{Fetched, Widget};
use vstd::prelude::*;
use vstd::string::StringSliceAdditionalSpecFns;
use vstd::utf8::encode_utf8;

verus! {

/// Horizontal origin of the joke's text on the frame.
pub const JOKE_ORIGIN_X: i32 = 10;

/// Vertical origin of the joke's text on the frame.
pub const JOKE_ORIGIN_Y: i32 = 50;

/// The address that jokes are fetched from.
pub fn programming_joke_url() -> (url: &'static str)
    ensures
        url@ == "https://v2.jokeapi.dev/joke/Programming?type=single"@,
{
    "https://v2.jokeapi.dev/joke/Programming?type=single"
}

/// One record of the joke service.
pub struct JokeData {
    /// Whether the service flagged the record as an error report.
    pub error: bool,
    /// The joke's text.
    pub joke: String,
}

/// A record of the joke service, as mathematics.
pub ghost struct JokeModel {
    pub error: bool,
    pub joke: Seq<char>,
}

impl View for JokeData {
    type V = JokeModel;

    open spec fn view(&self) -> JokeModel {
        JokeModel { error: self.error, joke: self.joke@ }
    }
}

impl Default for JokeData {
    /// The record held before anything has been fetched: no error, no text.
    fn default() -> (data: JokeData)
        ensures
            data@ == (JokeModel { error: false, joke: Seq::<char>::empty() }),
    {
        JokeData { error: false, joke: String::new() }
    }
}

/// A fetch outcome with its record, if any, as mathematics.
pub open spec fn fetched_model(fetched: Fetched<JokeData>) -> Fetched<JokeModel> {
    match fetched {
        Fetched::Unreachable => Fetched::Unreachable,
        Fetched::Malformed => Fetched::Malformed,
        Fetched::Decoded(data) => Fetched::Decoded(data@),
    }
}

/// The record held after a refresh. A decoded record replaces the held one,
/// unless the held one is flagged as an error report: such a record stays. A
/// failed request and an undecodable body change nothing.
pub open spec fn refreshed(held: JokeModel, fetched: Fetched<JokeModel>) -> JokeModel {
    match fetched {
        Fetched::Decoded(data) => if held.error {
            held
        } else {
            data
        },
        _ => held,
    }
}

/// The frame with a joke drawn on it: white on black, at the joke's origin.
/// A text beyond the layout's limit is not drawn.
pub open spec fn joke_on_frame(held: JokeModel, before: Seq<u8>) -> Seq<u8> {
    if encode_utf8(held.joke).len() <= TEXT_LENGTH_LIMIT {
        text_on_frame(
            before,
            held.joke,
            JOKE_ORIGIN_X as int,
            JOKE_ORIGIN_Y as int,
            Color::White,
            Color::Black,
        )
    } else {
        before
    }
}

/// The drawable unit that shows the joke.
pub struct JokeFullWidget {
    data: JokeData,
}

impl View for JokeFullWidget {
    type V = JokeModel;

    closed spec fn view(&self) -> JokeModel {
        self.data@
    }
}

impl JokeFullWidget {
    /// A unit that holds no joke yet.
    pub fn new() -> (widget: JokeFullWidget)
        ensures
            widget@ == (JokeModel { error: false, joke: Seq::<char>::empty() }),
    {
        JokeFullWidget { data: JokeData::default() }
    }

    /// The text that the unit holds.
    pub fn joke(&self) -> (text: &str)
        ensures
            text@ == self@.joke,
    {
        self.data.joke.as_str()
    }

    /// Whether the held record is flagged as an error report.
    pub fn error(&self) -> (flag: bool)
        ensures
            flag == self@.error,
    {
        self.data.error
    }
}

impl Widget for JokeFullWidget {
    type Content = JokeData;

    open spec fn drawn(&self, before: Seq<u8>) -> Seq<u8> {
        joke_on_frame(self@, before)
    }

    fn refresh_data(&mut self, fetched: Fetched<JokeData>)
        ensures
            final(self)@ == refreshed(old(self)@, fetched_model(fetched)),
    {
        match fetched {
            Fetched::Decoded(data) => {
                if !self.data.error {
                    self.data = data;
                }
            },
            _ => {},
        }
    }

    fn draw(&self, display: &mut FrameBuffer) {
        let text = self.data.joke.as_str();
        if text.as_bytes().len() <= TEXT_LENGTH_LIMIT {
            display.draw_text(text, JOKE_ORIGIN_X, JOKE_ORIGIN_Y, Color::White, Color::Black);
        }
    }
}

} // verus!
