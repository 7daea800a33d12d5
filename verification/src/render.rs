//! Turning lines into the text that reaches the terminal.
//!
//! Colours are applied by the `colored` crate, which decides by the
//! environment whether to colour at all. What a styled span becomes is
//! therefore one of two texts, and which one is not known here.

use crate::message::{Line, Span, SpanView, Style, Tone};
use colored::Colorize;
use vstd::prelude::*;
use vstd::string::StringExecFns;

verus! {

/// Whether `text` holds the character that starts a terminal control
/// sequence.
pub open spec fn has_escape(text: Seq<char>) -> bool {
    text.contains('\u{1b}')
}

/// The code by which a terminal selects `tone` as the colour of the text.
pub open spec fn tone_code(tone: Tone) -> Seq<char> {
    match tone {
        Tone::Red => "31"@,
        Tone::Green => "32"@,
        Tone::Yellow => "33"@,
        Tone::Cyan => "36"@,
        Tone::BrightBlue => "94"@,
        Tone::BrightGreen => "92"@,
        Tone::BrightMagenta => "95"@,
    }
}

/// The codes that select `style`: the code of its colour, after the code of
/// bold weight and a semicolon where the style is bold. A plain style has
/// none.
pub open spec fn style_codes(style: Style) -> Seq<char> {
    match style {
        Style::Plain => Seq::empty(),
        Style::Colored(tone) => tone_code(tone),
        Style::Bold(tone) => "1;"@ + tone_code(tone),
    }
}

/// `text` between the control sequence that selects `codes` and the one that
/// resets them.
pub open spec fn wrapped(codes: Seq<char>, text: Seq<char>) -> Seq<char> {
    "\u{1b}["@ + codes + "m"@ + text + "\u{1b}[0m"@
}

/// `shown` is `text` as it is sent to a terminal under `codes`: `text`
/// itself, where colours are switched off, or `text` wrapped in the control
/// sequences.
pub open spec fn painted(shown: Seq<char>, codes: Seq<char>, text: Seq<char>) -> bool {
    shown == text || shown == wrapped(codes, text)
}

/// `piece` is what `span` becomes on the terminal. A plain span becomes its
/// text. A styled span is painted with the codes of its style; of one whose
/// text itself holds control sequences nothing is said.
pub open spec fn shows_span(piece: Seq<char>, span: SpanView) -> bool {
    match span.style {
        Style::Plain => piece == span.text,
        _ => !has_escape(span.text) ==> painted(piece, style_codes(span.style), span.text),
    }
}

/// `shown` is what `spans` become on the terminal, one after the other.
pub open spec fn shows(shown: Seq<char>, spans: Seq<SpanView>) -> bool
    decreases spans.len(),
{
    if spans.len() == 0 {
        shown == Seq::<char>::empty()
    } else {
        exists|head: Seq<char>, piece: Seq<char>|
            {
                &&& shown == head + piece
                &&& shows(head, spans.drop_last())
                &&& shows_span(piece, spans.last())
            }
    }
}

/// The texts of `spans`, one after the other, without any styling.
pub open spec fn plain_text(spans: Seq<SpanView>) -> Seq<char>
    decreases spans.len(),
{
    if spans.len() == 0 {
        Seq::empty()
    } else {
        plain_text(spans.drop_last()) + spans.last().text
    }
}

/// `colored::Colorize::color` on `text`, with the variant of
/// `colored::Color` that is named like `tone`, formatted to a string by the
/// `Display` impl of `colored::ColoredString`. Not proved, but read off the
/// crate: where it finds colours switched off the string is the text;
/// otherwise it is the text between `ESC [`, the colour's code, `m` and
/// `ESC [ 0 m`. The crate rewrites reset sequences that stand inside the
/// text, so this is claimed only of a text without the escape character.
#[verifier::external_body]
fn colorize(text: &str, tone: Tone) -> (shown: String)
    ensures
        !has_escape(text@) ==> painted(shown@, tone_code(tone), text@),
{
    let color = match tone {
        Tone::Red => colored::Color::Red,
        Tone::Green => colored::Color::Green,
        Tone::Yellow => colored::Color::Yellow,
        Tone::Cyan => colored::Color::Cyan,
        Tone::BrightBlue => colored::Color::BrightBlue,
        Tone::BrightGreen => colored::Color::BrightGreen,
        Tone::BrightMagenta => colored::Color::BrightMagenta,
    };
    text.color(color).to_string()
}

/// `colored::Colorize::color` and then `colored::Colorize::bold` on `text`,
/// formatted to a string in the same way. The claim is that of
/// [`colorize`], and as little proved, but for the codes: the crate writes
/// the code of bold weight and a semicolon before the colour's code.
#[verifier::external_body]
fn colorize_bold(text: &str, tone: Tone) -> (shown: String)
    ensures
        !has_escape(text@) ==> painted(shown@, "1;"@ + tone_code(tone), text@),
{
    let color = match tone {
        Tone::Red => colored::Color::Red,
        Tone::Green => colored::Color::Green,
        Tone::Yellow => colored::Color::Yellow,
        Tone::Cyan => colored::Color::Cyan,
        Tone::BrightBlue => colored::Color::BrightBlue,
        Tone::BrightGreen => colored::Color::BrightGreen,
        Tone::BrightMagenta => colored::Color::BrightMagenta,
    };
    text.color(color).bold().to_string()
}

/// Turns one span into the text that shows it: a plain span into its own
/// text, a styled one into what the `colored` crate makes of it, in the
/// colour and weight of its style.
pub fn paint(span: &Span) -> (shown: String)
    ensures
        shows_span(shown@, span@),
{
    match span.style {
        Style::Plain => span.text.clone(),
        Style::Colored(tone) => colorize(span.text.as_str(), tone),
        Style::Bold(tone) => colorize_bold(span.text.as_str(), tone),
    }
}

/// Turns a line into the text that shows it, without the line break: its
/// spans, each painted, one after the other.
pub fn render(line: &Line) -> (shown: String)
    ensures
        shows(shown@, line@.spans),
{
    let mut shown = String::new();
    let mut i: usize = 0;
    assert(line@.spans.take(0) =~= Seq::<SpanView>::empty());
    while i < line.spans.len()
        invariant
            i <= line.spans.len(),
            shows(shown@, line@.spans.take(i as int)),
        decreases line.spans.len() - i,
    {
        let piece = paint(&line.spans[i]);
        let ghost head = shown@;
        shown.append(piece.as_str());
        proof {
            let before = line@.spans.take(i as int);
            let upto = line@.spans.take(i + 1);
            assert(upto.drop_last() =~= before);
            assert(upto.last() == line.spans[i as int]@);
            assert(shown@ == head + piece@);
        }
        i += 1;
    }
    assert(line@.spans.take(i as int) =~= line@.spans);
    shown
}

/// A line of plain spans is shown as its texts, one after the other.
pub proof fn lemma_plain_line_shows_its_text(shown: Seq<char>, spans: Seq<SpanView>)
    requires
        shows(shown, spans),
        forall|i: int| 0 <= i < spans.len() ==> (#[trigger] spans[i]).style is Plain,
    ensures
        shown == plain_text(spans),
    decreases spans.len(),
{
    if spans.len() > 0 {
        let (head, piece) = choose|head: Seq<char>, piece: Seq<char>|
            {
                &&& shown == head + piece
                &&& shows(head, spans.drop_last())
                &&& shows_span(piece, spans.last())
            };
        lemma_plain_line_shows_its_text(head, spans.drop_last());
    }
}

} // verus!
