use next_fast::message::{Line, Span, Stream, Style, Tone};
use next_fast::render::{paint, render};
use next_fast::report::completion_message;

fn span(style: Style, text: &str) -> Span {
    Span { text: text.to_string(), style }
}

#[test]
fn plain_spans_are_shown_as_they_are() {
    assert_eq!(paint(&span(Style::Plain, "  1. ")), "  1. ");
    assert_eq!(paint(&span(Style::Plain, "")), "");
    assert_eq!(paint(&span(Style::Plain, "\u{1b}[0m")), "\u{1b}[0m");
    let line = Line {
        stream: Stream::Output,
        spans: vec![span(Style::Plain, "a"), span(Style::Plain, ""), span(Style::Plain, "bc")],
    };
    assert_eq!(render(&line), "abc");
    assert_eq!(render(&Line::blank()), "");
}

#[test]
fn colours_follow_the_switch() {
    let yellow = span(Style::Colored(Tone::Yellow), "wait");
    let heading = span(Style::Bold(Tone::BrightBlue), "Next steps:");
    let step = Line {
        stream: Stream::Output,
        spans: vec![span(Style::Plain, "  3. "), span(Style::Colored(Tone::Cyan), "bun dev")],
    };

    colored::control::set_override(true);
    assert_eq!(paint(&yellow), "\u{1b}[33mwait\u{1b}[0m");
    assert_eq!(paint(&heading), "\u{1b}[1;94mNext steps:\u{1b}[0m");
    assert_eq!(render(&step), "  3. \u{1b}[36mbun dev\u{1b}[0m");
    let tones = [
        (Tone::Red, "31"),
        (Tone::Green, "32"),
        (Tone::Yellow, "33"),
        (Tone::Cyan, "36"),
        (Tone::BrightBlue, "94"),
        (Tone::BrightGreen, "92"),
        (Tone::BrightMagenta, "95"),
    ];
    for (tone, code) in tones {
        assert_eq!(
            paint(&span(Style::Colored(tone), "x")),
            format!("\u{1b}[{}mx\u{1b}[0m", code)
        );
        assert_eq!(
            paint(&span(Style::Bold(tone), "x")),
            format!("\u{1b}[1;{}mx\u{1b}[0m", code)
        );
    }
    let closing: Vec<String> = completion_message().iter().map(render).collect();
    assert_eq!(closing[0], "");
    assert_eq!(closing[4], "  1. \u{1b}[36mcd <project-name>\u{1b}[0m");
    assert_eq!(
        closing[9],
        "  • \u{1b}[33mPush schema to database\u{1b}[0m: \u{1b}[36mbunx prisma db push\u{1b}[0m"
    );

    colored::control::set_override(false);
    assert_eq!(paint(&yellow), "wait");
    assert_eq!(paint(&heading), "Next steps:");
    assert_eq!(render(&step), "  3. bun dev");
    let closing: Vec<String> = completion_message().iter().map(render).collect();
    assert_eq!(closing[1], "🎉 Project created successfully!");
    assert_eq!(closing[4], "  1. cd <project-name>");
    assert_eq!(closing[12], "  • Create migration: bunx prisma migrate dev");
    assert_eq!(closing[14], "Happy coding! 🚀");

    colored::control::unset_override();
}
