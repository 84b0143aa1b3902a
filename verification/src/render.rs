//! What the overlay draws: a translucent background and the most recent
//! chat lines that fit, oldest at the top.
//!
//! Nothing here touches a screen. [`render`] says what a frame holds; the
//! shell draws it.

use vstd::prelude::*;
use vstd::string::StringExecFns;
use crate::chat::{ChatMessage, ChatMessageView, messages_view};

verus! {

/// Height of one line of text, in logical pixels.
pub const LINE_HEIGHT: u32 = 24;

/// Space below each line of text, in logical pixels.
pub const LINE_PADDING: u32 = 10;

/// Distance of the text from the left edge of the window.
pub const TEXT_LEFT: u32 = 30;

/// Distance of the first line from the top edge of the window.
pub const TEXT_TOP: u32 = 20;

/// A colour, eight bits per channel.
#[derive(Clone, Copy, Debug, PartialEq, Eq, Structural)]
pub struct Rgba {
    pub red: u8,
    pub green: u8,
    pub blue: u8,
    pub alpha: u8,
}

/// One line of text and where its top left corner goes.
#[derive(Debug, PartialEq, Eq)]
pub struct TextLine {
    /// The text, user name first.
    pub text: String,
    /// Distance from the left edge of the window.
    pub x: u32,
    /// Distance from the top edge of the window.
    pub y: u32,
}

/// Everything that one repaint draws.
#[derive(Debug, PartialEq, Eq)]
pub struct Frame {
    /// The colour that fills the whole window before any text is drawn.
    pub background: Rgba,
    /// The colour of the text.
    pub text_color: Rgba,
    /// The lines, top to bottom.
    pub lines: Vec<TextLine>,
}

/// Half-transparent black.
pub open spec fn background_color() -> Rgba {
    Rgba { red: 0, green: 0, blue: 0, alpha: 128 }
}

/// Opaque white.
pub open spec fn text_color() -> Rgba {
    Rgba { red: 255, green: 255, blue: 255, alpha: 255 }
}

/// How many lines fit into a viewport of the given height.
pub open spec fn lines_that_fit(viewport_height: int) -> int {
    viewport_height / (LINE_HEIGHT + LINE_PADDING)
}

/// The last `count` of `messages`, or all of them where there are no more
/// than `count`.
pub open spec fn most_recent(messages: Seq<ChatMessageView>, count: int) -> Seq<ChatMessageView> {
    if messages.len() <= count {
        messages
    } else {
        messages.subrange(messages.len() - count, messages.len() as int)
    }
}

/// The text of the line that shows `message`.
pub open spec fn line_text(message: ChatMessageView) -> Seq<char> {
    message.username + ": "@ + message.text
}

/// Where line number `index` of a frame stands, counted from zero at the
/// top.
pub open spec fn line_top(index: int) -> int {
    TEXT_TOP + index * (LINE_HEIGHT + LINE_PADDING)
}

/// Whether `frame` shows exactly `shown`, top to bottom, in the overlay's
/// layout and colours.
pub open spec fn frame_shows(frame: Frame, shown: Seq<ChatMessageView>) -> bool {
    &&& frame.background == background_color()
    &&& frame.text_color == text_color()
    &&& frame.lines@.len() == shown.len()
    &&& forall|i: int|
        0 <= i < shown.len() ==> {
            &&& (#[trigger] frame.lines@[i]).text@ == line_text(shown[i])
            &&& frame.lines@[i].x == TEXT_LEFT
            &&& frame.lines@[i].y == line_top(i)
        }
}

/// Where the line at hand is drawn, and how many lines are then drawn in
/// all, when `drawn` lines of `frame` have been drawn before it and `built`
/// tells whether its text could be laid out. A line that could not be laid
/// out is left out, and the next one takes its place.
pub open spec fn placement(frame: Frame, drawn: int, built: bool) -> (Option<(u32, u32)>, int) {
    if built && 0 <= drawn < frame.lines@.len() {
        (Some((frame.lines@[drawn].x, frame.lines@[drawn].y)), drawn + 1)
    } else {
        (None, drawn)
    }
}

impl Frame {
    /// Decides where the line at hand is drawn. `drawn` counts the lines of
    /// this frame drawn so far; `built` tells whether the shell could lay out
    /// the text of the line at hand. The answer holds the place to draw at,
    /// or nothing where the line is left out, and the new count.
    pub fn place_line(&self, drawn: usize, built: bool) -> (step: (Option<(u32, u32)>, usize))
        ensures
            step.0 == placement(*self, drawn as int, built).0,
            step.1 == placement(*self, drawn as int, built).1,
    {
        if built && drawn < self.lines.len() {
            (Some((self.lines[drawn].x, self.lines[drawn].y)), drawn + 1)
        } else {
            (None, drawn)
        }
    }
}

/// How many lines fit into a viewport of the given height.
pub fn max_messages_in_view(viewport_height: u32) -> (count: usize)
    ensures
        count == lines_that_fit(viewport_height as int),
{
    (viewport_height / (LINE_HEIGHT + LINE_PADDING)) as usize
}

/// The text of the line that shows `message`: the user name, a colon and a
/// space, and what was said.
pub fn format_line(message: &ChatMessage) -> (text: String)
    ensures
        text@ == line_text(message@),
{
    let mut text = String::new();
    text.append(message.username.as_str());
    text.append(": ");
    text.append(message.text.as_str());
    assert(text@ =~= line_text(message@));
    text
}

/// The frame for `messages` in a viewport of the given height: the
/// background, then the most recent messages that fit, oldest at the top.
pub fn render(messages: &Vec<ChatMessage>, viewport_height: u32) -> (frame: Frame)
    ensures
        frame_shows(
            frame,
            most_recent(messages_view(messages@), lines_that_fit(viewport_height as int)),
        ),
{
    let count = max_messages_in_view(viewport_height);
    let start = if messages.len() > count {
        messages.len() - count
    } else {
        0
    };
    let ghost shown = most_recent(messages_view(messages@), count as int);
    assert(shown =~= messages_view(messages@).subrange(start as int, messages.len() as int));
    let mut lines: Vec<TextLine> = Vec::new();
    let mut y: u32 = TEXT_TOP;
    let mut i: usize = start;
    while i < messages.len()
        invariant
            start <= i <= messages.len(),
            messages.len() - start <= count,
            count == lines_that_fit(viewport_height as int),
            shown == messages_view(messages@).subrange(start as int, messages.len() as int),
            lines@.len() == i - start,
            i < messages.len() ==> y == line_top(i - start),
            forall|k: int|
                0 <= k < i - start ==> {
                    &&& (#[trigger] lines@[k]).text@ == line_text(shown[k])
                    &&& lines@[k].x == TEXT_LEFT
                    &&& lines@[k].y == line_top(k)
                },
        decreases messages.len() - i,
    {
        let text = format_line(&messages[i]);
        assert(shown[i - start] == messages@[i as int]@);
        lines.push(TextLine { text, x: TEXT_LEFT, y });
        i += 1;
        if i < messages.len() {
            assert((i - start + 1) * 34 <= viewport_height) by (nonlinear_arith)
                requires
                    i - start + 1 <= count,
                    count == viewport_height as int / 34,
            ;
            y = y + (LINE_HEIGHT + LINE_PADDING);
        }
    }
    Frame {
        background: Rgba { red: 0, green: 0, blue: 0, alpha: 128 },
        text_color: Rgba { red: 255, green: 255, blue: 255, alpha: 255 },
        lines,
    }
}

/// A frame never holds more lines than fit, and never more than there are
/// messages.
pub proof fn lemma_most_recent_len(messages: Seq<ChatMessageView>, count: int)
    requires
        0 <= count,
    ensures
        most_recent(messages, count).len() == if messages.len() <= count {
            messages.len() as int
        } else {
            count
        },
{
}

/// The messages shown are the last ones, in their order: line `i` shows
/// the message that stands `i` places behind the first one shown.
pub proof fn lemma_most_recent_is_suffix(messages: Seq<ChatMessageView>, count: int, i: int)
    requires
        0 <= count,
        0 <= i < most_recent(messages, count).len(),
    ensures
        most_recent(messages, count)[i] == messages[messages.len() - most_recent(
            messages,
            count,
        ).len() + i],
{
}

} // verus!
