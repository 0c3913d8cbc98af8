use epaper_panel::frame::{Color, FrameBuffer};
use epaper_panel::layouts::{JokeLayout, Layout};
use epaper_panel::widgets::joke::{
    programming_joke_url, JokeData, JokeFullWidget, JOKE_ORIGIN_X, JOKE_ORIGIN_Y,
};
use epaper_panel::widgets::{Fetched, Widget};

fn record(error: bool, joke: &str) -> JokeData {
    JokeData { error, joke: String::from(joke) }
}

#[test]
fn the_joke_service_address() {
    assert_eq!(
        programming_joke_url(),
        "https://v2.jokeapi.dev/joke/Programming?type=single"
    );
}

#[test]
fn the_joke_origin() {
    assert_eq!(JOKE_ORIGIN_X, 10);
    assert_eq!(JOKE_ORIGIN_Y, 50);
}

#[test]
fn the_default_record_is_empty() {
    let data = JokeData::default();
    assert!(!data.error);
    assert_eq!(data.joke, "");
}

#[test]
fn a_new_widget_holds_no_joke() {
    let widget = JokeFullWidget::new();
    assert_eq!(widget.joke(), "");
    assert!(!widget.error());
}

#[test]
fn a_decoded_record_replaces_the_held_one() {
    let mut widget = JokeFullWidget::new();
    widget.refresh_data(Fetched::Decoded(record(false, "first")));
    assert_eq!(widget.joke(), "first");
    widget.refresh_data(Fetched::Decoded(record(false, "second")));
    assert_eq!(widget.joke(), "second");
    assert!(!widget.error());
}

#[test]
fn a_failed_request_changes_nothing() {
    let mut widget = JokeFullWidget::new();
    widget.refresh_data(Fetched::Decoded(record(false, "kept")));
    widget.refresh_data(Fetched::Unreachable);
    assert_eq!(widget.joke(), "kept");
    assert!(!widget.error());
}

#[test]
fn an_undecodable_body_changes_nothing() {
    let mut widget = JokeFullWidget::new();
    widget.refresh_data(Fetched::Decoded(record(false, "kept")));
    widget.refresh_data(Fetched::Malformed);
    assert_eq!(widget.joke(), "kept");
    assert!(!widget.error());
}

#[test]
fn a_record_flagged_as_error_is_taken_in() {
    let mut widget = JokeFullWidget::new();
    widget.refresh_data(Fetched::Decoded(record(true, "oops")));
    assert_eq!(widget.joke(), "oops");
    assert!(widget.error());
}

#[test]
fn a_held_error_record_is_never_replaced() {
    let mut widget = JokeFullWidget::new();
    widget.refresh_data(Fetched::Decoded(record(true, "oops")));
    widget.refresh_data(Fetched::Decoded(record(false, "fine")));
    assert_eq!(widget.joke(), "oops");
    assert!(widget.error());
    widget.refresh_data(Fetched::Unreachable);
    widget.refresh_data(Fetched::Malformed);
    assert_eq!(widget.joke(), "oops");
}

#[test]
fn the_widget_draws_white_on_black_at_its_origin() {
    let mut widget = JokeFullWidget::new();
    widget.refresh_data(Fetched::Decoded(record(false, "Knock knock.")));
    let mut drawn = FrameBuffer::new();
    widget.draw(&mut drawn);
    let mut expected = FrameBuffer::new();
    expected.draw_text("Knock knock.", 10, 50, Color::White, Color::Black);
    assert_eq!(drawn.bytes(), expected.bytes());
    assert!(drawn.bytes().iter().any(|byte| *byte != 0x00));
}

#[test]
fn an_empty_joke_draws_nothing() {
    let widget = JokeFullWidget::new();
    let mut frame = FrameBuffer::new();
    frame.clear(Color::White);
    widget.draw(&mut frame);
    assert!(frame.bytes().iter().all(|byte| *byte == 0xFF));
}

#[test]
fn drawing_builds_on_the_frame_before() {
    let mut widget = JokeFullWidget::new();
    widget.refresh_data(Fetched::Decoded(record(false, "Hi")));
    let mut frame = FrameBuffer::new();
    frame.clear(Color::White);
    widget.draw(&mut frame);
    let bytes = frame.bytes();
    // Rows above the text stay white; the character cells turn mostly black.
    assert!(bytes[..50 * 100].iter().all(|byte| *byte == 0xFF));
    assert!(bytes[50 * 100..70 * 100].iter().any(|byte| *byte != 0xFF));
    assert!(bytes[70 * 100..].iter().all(|byte| *byte == 0xFF));
}

#[test]
fn a_text_at_the_layout_limit_is_drawn() {
    let mut widget = JokeFullWidget::new();
    widget.refresh_data(Fetched::Decoded(JokeData { error: false, joke: "a".repeat(1_000_000) }));
    let mut frame = FrameBuffer::new();
    widget.draw(&mut frame);
    assert!(frame.bytes().iter().any(|byte| *byte != 0x00));
}

#[test]
fn a_text_beyond_the_layout_limit_is_not_drawn() {
    let mut widget = JokeFullWidget::new();
    widget.refresh_data(Fetched::Decoded(JokeData { error: false, joke: "a".repeat(1_000_001) }));
    let mut frame = FrameBuffer::new();
    widget.draw(&mut frame);
    assert!(frame.bytes().iter().all(|byte| *byte == 0x00));
}

#[test]
fn a_new_layout_holds_an_empty_joke() {
    let layout = JokeLayout::new();
    assert_eq!(layout.joke_widget().joke(), "");
    assert!(!layout.joke_widget().error());
}

#[test]
fn the_layout_hands_refreshes_to_its_child() {
    let mut layout = JokeLayout::new();
    layout.refresh_data(Fetched::Decoded(record(false, "delegated")));
    assert_eq!(layout.joke_widget().joke(), "delegated");
    layout.refresh_data(Fetched::Malformed);
    assert_eq!(layout.joke_widget().joke(), "delegated");
}

#[test]
fn the_layout_draws_what_its_child_draws() {
    let mut layout = JokeLayout::new();
    layout.refresh_data(Fetched::Decoded(record(false, "same pixels")));
    let mut by_layout = FrameBuffer::new();
    layout.draw(&mut by_layout);
    let mut by_child = FrameBuffer::new();
    layout.joke_widget().draw(&mut by_child);
    assert_eq!(by_layout.bytes(), by_child.bytes());
    assert!(by_layout.bytes().iter().any(|byte| *byte != 0x00));
}
