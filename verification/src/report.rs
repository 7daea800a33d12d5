//! What the run tells the user: a line before each step, a line after it,
//! and the closing message.

use crate::message::{
    blank, lines_view, push_line, span, styled, Tone, Line, LineView, Stream, Style,
};
use crate::pipeline::{step_succeeded, succeeds, Outcome, OutcomeView, Step};
use crate::text::joined_text;
use vstd::prelude::*;

verus! {

pub const BANNER: &'static str = "🚀 Creating Next.js app with Prisma...";

pub const CHECKING_TOOL: &'static str = "🔍 Checking for bun...";

pub const TOOL_FOUND: &'static str = "✅ bun found!";

pub const TOOL_MISSING: &'static str = "❌ bun is not installed or not in PATH";

pub const INSTALL_HINT: &'static str = "Please install bun from: https://bun.sh";

pub const TOOL_BROKEN: &'static str = "❌ bun is installed but does not work";

pub const SCAFFOLDING: &'static str = "📦 Creating Next.js app with bun...";

pub const SCAFFOLD_FAILED: &'static str = "❌ Failed to create Next.js app";

pub const SCAFFOLDED: &'static str = "✅ Next.js app created successfully!";

pub const ENTERING_PROJECT: &'static str = "🗄️ Initializing Prisma...";

pub const ADDING_DEPENDENCIES: &'static str = "📦 Adding Prisma dependencies...";

pub const ADD_DEPENDENCIES_FAILED: &'static str = "❌ Failed to add Prisma dependencies";

pub const INITIALIZING_SCHEMA: &'static str = "🔧 Initializing Prisma schema...";

pub const INIT_SCHEMA_FAILED: &'static str = "❌ Failed to initialize Prisma";

pub const SCHEMA_WRITTEN: &'static str = "📝 Created basic Prisma schema with User and Post models";

pub const GENERATING_CLIENT: &'static str = "⚡ Generating Prisma client...";

pub const GENERATE_CLIENT_FAILED: &'static str = "❌ Failed to generate Prisma client";

pub const CLIENT_GENERATED: &'static str = "✅ Prisma initialized successfully!";

pub const INITIALIZING_COMPONENTS: &'static str = "📦 Initalizing Shadcn...";

pub const INIT_COMPONENTS_FAILED: &'static str = "❌ Failed to initalizes Shadcn ";

pub const COMPONENTS_INITIALIZED: &'static str = "✅ Shadcn Initializes Successfully !";

pub const ERROR_PREFIX: &'static str = "Error: ";

pub const PROJECT_CREATED: &'static str = "🎉 Project created successfully!";

pub const NEXT_STEPS: &'static str = "Next steps:";

pub const ENTER_COMMAND: &'static str = "cd <project-name>";

pub const PUSH_COMMAND: &'static str = "bunx prisma db push";

pub const DEV_COMMAND: &'static str = "bun dev";

pub const TOOLKIT_COMMANDS: &'static str = "Prisma commands:";

pub const PUSH_LABEL: &'static str = "Push schema to database";

pub const STUDIO_LABEL: &'static str = "Open Prisma Studio";

pub const STUDIO_COMMAND: &'static str = "bunx prisma studio";

pub const GENERATE_LABEL: &'static str = "Generate client";

pub const GENERATE_COMMAND: &'static str = "bunx prisma generate";

pub const MIGRATE_LABEL: &'static str = "Create migration";

pub const MIGRATE_COMMAND: &'static str = "bunx prisma migrate dev";

pub const FAREWELL: &'static str = "Happy coding! 🚀";

/// A line of progress: `text` in `tone` on standard output.
pub open spec fn progress(tone: Tone, text: Seq<char>) -> LineView {
    styled(Stream::Output, Style::Colored(tone), text)
}

/// A heading: `text` in `tone` and bold on standard output.
pub open spec fn heading(tone: Tone, text: Seq<char>) -> LineView {
    styled(Stream::Output, Style::Bold(tone), text)
}

/// A complaint: `text` in `tone` on standard error.
pub open spec fn complaint(tone: Tone, text: Seq<char>) -> LineView {
    styled(Stream::Error, Style::Colored(tone), text)
}

/// One of the numbered next steps: the number as it is, the command in cyan.
pub open spec fn numbered(number: Seq<char>, command: Seq<char>) -> LineView {
    LineView {
        stream: Stream::Output,
        spans: seq![span(Style::Plain, number), span(Style::Colored(Tone::Cyan), command)],
    }
}

/// One entry of the list of commands: a bullet, what the command does in
/// yellow, a colon, and the command in cyan.
pub open spec fn bullet(label: Seq<char>, command: Seq<char>) -> LineView {
    LineView {
        stream: Stream::Output,
        spans: seq![
            span(Style::Plain, "  • "@),
            span(Style::Colored(Tone::Yellow), label),
            span(Style::Plain, ": "@),
            span(Style::Colored(Tone::Cyan), command),
        ],
    }
}

/// The lines that are printed before `step` is performed. The first step is
/// preceded by the banner of the whole run; the write of the schema file is
/// not announced.
pub open spec fn announcement_spec(step: Step) -> Seq<LineView> {
    match step {
        Step::CheckTool => seq![
            heading(Tone::BrightBlue, BANNER@),
            progress(Tone::Yellow, CHECKING_TOOL@),
        ],
        Step::Scaffold => seq![progress(Tone::Yellow, SCAFFOLDING@)],
        Step::EnterProject => seq![progress(Tone::Yellow, ENTERING_PROJECT@)],
        Step::AddDependencies => seq![progress(Tone::Cyan, ADDING_DEPENDENCIES@)],
        Step::InitSchema => seq![progress(Tone::Cyan, INITIALIZING_SCHEMA@)],
        Step::WriteSchema => Seq::empty(),
        Step::GenerateClient => seq![progress(Tone::Cyan, GENERATING_CLIENT@)],
        Step::InitComponents => seq![progress(Tone::Yellow, INITIALIZING_COMPONENTS@)],
    }
}

/// The closing message: that the project was created, what to do next, and
/// the commands of the schema toolkit. It is the same after every run.
pub open spec fn completion_spec() -> Seq<LineView> {
    seq![
        blank(),
        heading(Tone::BrightGreen, PROJECT_CREATED@),
        blank(),
        heading(Tone::BrightBlue, NEXT_STEPS@),
        numbered("  1. "@, ENTER_COMMAND@),
        numbered("  2. "@, PUSH_COMMAND@),
        numbered("  3. "@, DEV_COMMAND@),
        blank(),
        heading(Tone::BrightBlue, TOOLKIT_COMMANDS@),
        bullet(PUSH_LABEL@, PUSH_COMMAND@),
        bullet(STUDIO_LABEL@, STUDIO_COMMAND@),
        bullet(GENERATE_LABEL@, GENERATE_COMMAND@),
        bullet(MIGRATE_LABEL@, MIGRATE_COMMAND@),
        blank(),
        progress(Tone::BrightMagenta, FAREWELL@),
    ]
}

/// The lines that are printed when `step` has succeeded. Three steps succeed
/// silently; the last one is followed by the closing message.
pub open spec fn success_spec(step: Step) -> Seq<LineView> {
    match step {
        Step::CheckTool => seq![progress(Tone::Green, TOOL_FOUND@)],
        Step::Scaffold => seq![progress(Tone::Green, SCAFFOLDED@)],
        Step::EnterProject => Seq::empty(),
        Step::AddDependencies => Seq::empty(),
        Step::InitSchema => Seq::empty(),
        Step::WriteSchema => seq![progress(Tone::Green, SCHEMA_WRITTEN@)],
        Step::GenerateClient => seq![progress(Tone::Green, CLIENT_GENERATED@)],
        Step::InitComponents => seq![progress(Tone::Green, COMPONENTS_INITIALIZED@)]
            + completion_spec(),
    }
}

/// The lines that are printed when the program of `step` ran and did not
/// succeed. Steps that start no program have none.
pub open spec fn failure_spec(step: Step) -> Seq<LineView> {
    match step {
        Step::CheckTool => seq![complaint(Tone::Red, TOOL_BROKEN@)],
        Step::Scaffold => seq![complaint(Tone::Red, SCAFFOLD_FAILED@)],
        Step::AddDependencies => seq![complaint(Tone::Red, ADD_DEPENDENCIES_FAILED@)],
        Step::InitSchema => seq![complaint(Tone::Red, INIT_SCHEMA_FAILED@)],
        Step::GenerateClient => seq![complaint(Tone::Red, GENERATE_CLIENT_FAILED@)],
        Step::InitComponents => seq![complaint(Tone::Red, INIT_COMPONENTS_FAILED@)],
        _ => Seq::empty(),
    }
}

/// The lines that are printed when the action of `step` could not be carried
/// out at all. For the check of the package manager they say that it is
/// missing and where to get it. For every other step there is one line, the
/// description of the error behind a fixed prefix, in no colour.
pub open spec fn error_spec(step: Step, description: Seq<char>) -> Seq<LineView> {
    match step {
        Step::CheckTool => seq![
            complaint(Tone::Red, TOOL_MISSING@),
            complaint(Tone::Yellow, INSTALL_HINT@),
        ],
        _ => seq![styled(Stream::Error, Style::Plain, ERROR_PREFIX@ + description)],
    }
}

/// The lines that are printed once `step` has ended with `outcome`.
pub open spec fn verdict_spec(step: Step, outcome: OutcomeView) -> Seq<LineView> {
    if succeeds(step, outcome) {
        success_spec(step)
    } else {
        match outcome {
            OutcomeView::Failed(description) => error_spec(step, description),
            _ => failure_spec(step),
        }
    }
}

fn progress_line(tone: Tone, text: &str) -> (line: Line)
    ensures
        line@ == progress(tone, text@),
{
    Line::styled(Stream::Output, Style::Colored(tone), text)
}

fn heading_line(tone: Tone, text: &str) -> (line: Line)
    ensures
        line@ == heading(tone, text@),
{
    Line::styled(Stream::Output, Style::Bold(tone), text)
}

fn complaint_line(tone: Tone, text: &str) -> (line: Line)
    ensures
        line@ == complaint(tone, text@),
{
    Line::styled(Stream::Error, Style::Colored(tone), text)
}

fn numbered_line(number: &str, command: &str) -> (line: Line)
    ensures
        line@ == numbered(number@, command@),
{
    let mut line = Line::styled(Stream::Output, Style::Plain, number);
    line.add(Style::Colored(Tone::Cyan), command);
    assert(line@.spans =~= numbered(number@, command@).spans);
    line
}

fn bullet_line(label: &str, command: &str) -> (line: Line)
    ensures
        line@ == bullet(label@, command@),
{
    let mut line = Line::styled(Stream::Output, Style::Plain, "  • ");
    line.add(Style::Colored(Tone::Yellow), label);
    line.add(Style::Plain, ": ");
    line.add(Style::Colored(Tone::Cyan), command);
    assert(line@.spans =~= bullet(label@, command@).spans);
    line
}

/// Builds the lines to print before `step` is performed.
pub fn announcement(step: Step) -> (lines: Vec<Line>)
    ensures
        lines_view(lines@) == announcement_spec(step),
{
    let mut lines: Vec<Line> = Vec::new();
    match step {
        Step::CheckTool => {
            push_line(&mut lines, heading_line(Tone::BrightBlue, BANNER));
            push_line(&mut lines, progress_line(Tone::Yellow, CHECKING_TOOL));
        },
        Step::Scaffold => push_line(&mut lines, progress_line(Tone::Yellow, SCAFFOLDING)),
        Step::EnterProject => push_line(&mut lines, progress_line(Tone::Yellow, ENTERING_PROJECT)),
        Step::AddDependencies => push_line(
            &mut lines,
            progress_line(Tone::Cyan, ADDING_DEPENDENCIES),
        ),
        Step::InitSchema => push_line(&mut lines, progress_line(Tone::Cyan, INITIALIZING_SCHEMA)),
        Step::WriteSchema => {},
        Step::GenerateClient => push_line(
            &mut lines,
            progress_line(Tone::Cyan, GENERATING_CLIENT),
        ),
        Step::InitComponents => push_line(
            &mut lines,
            progress_line(Tone::Yellow, INITIALIZING_COMPONENTS),
        ),
    }
    assert(lines_view(lines@) =~= announcement_spec(step));
    lines
}

/// Appends the closing message to `lines`.
fn push_completion(lines: &mut Vec<Line>)
    ensures
        lines_view(final(lines)@) == lines_view(old(lines)@) + completion_spec(),
{
    push_line(lines, Line::blank());
    push_line(lines, heading_line(Tone::BrightGreen, PROJECT_CREATED));
    push_line(lines, Line::blank());
    push_line(lines, heading_line(Tone::BrightBlue, NEXT_STEPS));
    push_line(lines, numbered_line("  1. ", ENTER_COMMAND));
    push_line(lines, numbered_line("  2. ", PUSH_COMMAND));
    push_line(lines, numbered_line("  3. ", DEV_COMMAND));
    push_line(lines, Line::blank());
    push_line(lines, heading_line(Tone::BrightBlue, TOOLKIT_COMMANDS));
    push_line(lines, bullet_line(PUSH_LABEL, PUSH_COMMAND));
    push_line(lines, bullet_line(STUDIO_LABEL, STUDIO_COMMAND));
    push_line(lines, bullet_line(GENERATE_LABEL, GENERATE_COMMAND));
    push_line(lines, bullet_line(MIGRATE_LABEL, MIGRATE_COMMAND));
    push_line(lines, Line::blank());
    push_line(lines, progress_line(Tone::BrightMagenta, FAREWELL));
    assert(lines_view(lines@) =~= lines_view(old(lines)@) + completion_spec());
}

/// Builds the closing message. It takes no argument: every run that
/// succeeds ends with the same text.
pub fn completion_message() -> (lines: Vec<Line>)
    ensures
        lines_view(lines@) == completion_spec(),
{
    let mut lines: Vec<Line> = Vec::new();
    push_completion(&mut lines);
    assert(lines_view(lines@) =~= completion_spec());
    lines
}

/// Builds the lines to print once `step` has ended with `outcome`: the
/// step's word of success, its complaint when its program did not succeed, or
/// the report of the error that kept the action from being carried out.
pub fn verdict(step: Step, outcome: &Outcome) -> (lines: Vec<Line>)
    ensures
        lines_view(lines@) == verdict_spec(step, outcome@),
{
    let mut lines: Vec<Line> = Vec::new();
    if step_succeeded(step, outcome) {
        match step {
            Step::CheckTool => push_line(&mut lines, progress_line(Tone::Green, TOOL_FOUND)),
            Step::Scaffold => push_line(&mut lines, progress_line(Tone::Green, SCAFFOLDED)),
            Step::WriteSchema => push_line(
                &mut lines,
                progress_line(Tone::Green, SCHEMA_WRITTEN),
            ),
            Step::GenerateClient => push_line(
                &mut lines,
                progress_line(Tone::Green, CLIENT_GENERATED),
            ),
            Step::InitComponents => {
                push_line(&mut lines, progress_line(Tone::Green, COMPONENTS_INITIALIZED));
                push_completion(&mut lines);
            },
            _ => {},
        }
    } else {
        match outcome {
            Outcome::Failed(description) => match step {
                Step::CheckTool => {
                    push_line(&mut lines, complaint_line(Tone::Red, TOOL_MISSING));
                    push_line(&mut lines, complaint_line(Tone::Yellow, INSTALL_HINT));
                },
                _ => {
                    let text = joined_text(ERROR_PREFIX, description.as_str());
                    push_line(
                        &mut lines,
                        Line::styled(Stream::Error, Style::Plain, text.as_str()),
                    );
                },
            },
            _ => match step {
                Step::CheckTool => push_line(&mut lines, complaint_line(Tone::Red, TOOL_BROKEN)),
                Step::Scaffold => push_line(
                    &mut lines,
                    complaint_line(Tone::Red, SCAFFOLD_FAILED),
                ),
                Step::AddDependencies => push_line(
                    &mut lines,
                    complaint_line(Tone::Red, ADD_DEPENDENCIES_FAILED),
                ),
                Step::InitSchema => push_line(
                    &mut lines,
                    complaint_line(Tone::Red, INIT_SCHEMA_FAILED),
                ),
                Step::GenerateClient => push_line(
                    &mut lines,
                    complaint_line(Tone::Red, GENERATE_CLIENT_FAILED),
                ),
                Step::InitComponents => push_line(
                    &mut lines,
                    complaint_line(Tone::Red, INIT_COMPONENTS_FAILED),
                ),
                _ => {},
            },
        }
    }
    assert(lines_view(lines@) =~= verdict_spec(step, outcome@));
    lines
}

} // verus!
