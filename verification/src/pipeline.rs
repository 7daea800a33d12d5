//! The pipeline: which step comes when, what each step asks of the outside
//! world, and what follows from the answer.
//!
//! The steps form one fixed sequence. Each is performed once, and the first
//! one that does not succeed ends the run: nothing is retried and nothing is
//! undone. The functions here only decide; whoever drives them starts the
//! programs, touches the file system and prints.

use crate::config::{Config, ConfigView};
use crate::invocation::{
    add_dependencies_invocation, add_dependencies_spec, generate_client_invocation,
    generate_client_spec, init_components_invocation, init_components_spec,
    init_schema_invocation, init_schema_spec, probe_invocation, probe_spec, scaffold_invocation,
    scaffold_spec, Invocation, InvocationView,
};
use crate::message::{lines_view, Line, LineView};
use crate::report::{announcement, announcement_spec, verdict, verdict_spec};
use crate::schema::{basic_schema, schema_path, SCHEMA_PATH, SCHEMA_TEMPLATE};
use vstd::prelude::*;

verus! {

/// The steps of the pipeline, in the order in which they are performed.
#[derive(Clone, Copy, Debug, PartialEq, Eq, Structural)]
pub enum Step {
    /// Ask the package manager for its version, to see that it is there and
    /// works.
    CheckTool,
    /// Generate the project.
    Scaffold,
    /// Make the project's directory the working directory.
    EnterProject,
    /// Add the schema toolkit to the project.
    AddDependencies,
    /// Let the schema toolkit set itself up.
    InitSchema,
    /// Replace the schema file by the fixed one.
    WriteSchema,
    /// Generate the database client from the schema.
    GenerateClient,
    /// Set up the component library.
    InitComponents,
}

/// Where a run stands.
#[derive(Clone, Copy, Debug, PartialEq, Eq, Structural)]
pub enum Phase {
    /// The given step is the next to be performed.
    Pending(Step),
    /// Every step was performed and succeeded.
    Succeeded,
    /// A step did not succeed, and the run ended there.
    Failed,
}

/// What a step asks of the outside world.
#[derive(Clone, Debug, PartialEq, Eq)]
pub enum Action {
    /// Start the program with its output captured, so that nothing of it
    /// reaches the terminal, and wait for it to end.
    Probe(Invocation),
    /// Start the program on the terminal of the run and wait for it to end.
    Run(Invocation),
    /// Change the working directory.
    ChangeDirectory(String),
    /// Write the file anew with the given content.
    WriteFile { path: String, content: String },
}

/// The mathematical value of an [`Action`].
pub enum ActionView {
    Probe(InvocationView),
    Run(InvocationView),
    ChangeDirectory(Seq<char>),
    WriteFile { path: Seq<char>, content: Seq<char> },
}

impl View for Action {
    type V = ActionView;

    open spec fn view(&self) -> ActionView {
        match self {
            Action::Probe(invocation) => ActionView::Probe(invocation@),
            Action::Run(invocation) => ActionView::Run(invocation@),
            Action::ChangeDirectory(path) => ActionView::ChangeDirectory(path@),
            Action::WriteFile { path, content } => ActionView::WriteFile {
                path: path@,
                content: content@,
            },
        }
    }
}

/// How an action ended.
#[derive(Clone, Debug, PartialEq, Eq)]
pub enum Outcome {
    /// The program ran and ended, with this exit code if it left one (a
    /// program that was killed leaves none).
    Exited(Option<i32>),
    /// The directory was changed or the file written.
    Completed,
    /// The program could not be started, or the file system refused. The text
    /// describes the error.
    Failed(String),
}

/// The mathematical value of an [`Outcome`].
pub enum OutcomeView {
    Exited(Option<i32>),
    Completed,
    Failed(Seq<char>),
}

impl View for Outcome {
    type V = OutcomeView;

    open spec fn view(&self) -> OutcomeView {
        match self {
            Outcome::Exited(code) => OutcomeView::Exited(*code),
            Outcome::Completed => OutcomeView::Completed,
            Outcome::Failed(description) => OutcomeView::Failed(description@),
        }
    }
}

/// The number of steps.
pub open spec fn step_count() -> int {
    8
}

/// The step at place `i` of the sequence, counted from 0.
pub open spec fn step_at(i: int) -> Step {
    if i <= 0 {
        Step::CheckTool
    } else if i == 1 {
        Step::Scaffold
    } else if i == 2 {
        Step::EnterProject
    } else if i == 3 {
        Step::AddDependencies
    } else if i == 4 {
        Step::InitSchema
    } else if i == 5 {
        Step::WriteSchema
    } else if i == 6 {
        Step::GenerateClient
    } else {
        Step::InitComponents
    }
}

impl Step {
    /// The place of the step in the sequence, counted from 0.
    pub open spec fn place(self) -> int {
        match self {
            Step::CheckTool => 0,
            Step::Scaffold => 1,
            Step::EnterProject => 2,
            Step::AddDependencies => 3,
            Step::InitSchema => 4,
            Step::WriteSchema => 5,
            Step::GenerateClient => 6,
            Step::InitComponents => 7,
        }
    }

    /// The step that follows, if there is one.
    pub open spec fn successor(self) -> Option<Step> {
        if self.place() + 1 < step_count() {
            Some(step_at(self.place() + 1))
        } else {
            None
        }
    }

    /// The step that follows this one, or `None` after the last.
    pub fn next(self) -> (following: Option<Step>)
        ensures
            following == self.successor(),
    {
        match self {
            Step::CheckTool => Some(Step::Scaffold),
            Step::Scaffold => Some(Step::EnterProject),
            Step::EnterProject => Some(Step::AddDependencies),
            Step::AddDependencies => Some(Step::InitSchema),
            Step::InitSchema => Some(Step::WriteSchema),
            Step::WriteSchema => Some(Step::GenerateClient),
            Step::GenerateClient => Some(Step::InitComponents),
            Step::InitComponents => None,
        }
    }
}

/// What `step` asks of the outside world under `config`.
pub open spec fn action_spec(config: ConfigView, step: Step) -> ActionView {
    match step {
        Step::CheckTool => ActionView::Probe(probe_spec()),
        Step::Scaffold => ActionView::Run(scaffold_spec(config)),
        Step::EnterProject => ActionView::ChangeDirectory(config.project_name),
        Step::AddDependencies => ActionView::Run(add_dependencies_spec()),
        Step::InitSchema => ActionView::Run(init_schema_spec()),
        Step::WriteSchema => ActionView::WriteFile {
            path: SCHEMA_PATH@,
            content: SCHEMA_TEMPLATE@,
        },
        Step::GenerateClient => ActionView::Run(generate_client_spec()),
        Step::InitComponents => ActionView::Run(init_components_spec()),
    }
}

/// Whether `outcome` counts as success of `step`.
///
/// A change of directory or a write succeeds when it was completed. Every
/// other step starts a program, the check of the package manager too, and
/// succeeds when the program ends with exit code zero.
pub open spec fn succeeds(step: Step, outcome: OutcomeView) -> bool {
    match step {
        Step::EnterProject | Step::WriteSchema => outcome is Completed,
        _ => outcome == OutcomeView::Exited(Some(0i32)),
    }
}

/// Where the run stands once `step` has ended with `outcome`: at the next
/// step, or at the end if it was the last, when it succeeded; failed when it
/// did not.
pub open spec fn phase_after(step: Step, outcome: OutcomeView) -> Phase {
    if succeeds(step, outcome) {
        match step.successor() {
            Some(following) => Phase::Pending(following),
            None => Phase::Succeeded,
        }
    } else {
        Phase::Failed
    }
}

impl Phase {
    /// The exit code that the phase stands for: 0 after a run in which every
    /// step succeeded, 1 after one that failed, none while a step is pending.
    pub open spec fn exit_code_spec(self) -> Option<i32> {
        match self {
            Phase::Pending(_) => None,
            Phase::Succeeded => Some(0i32),
            Phase::Failed => Some(1i32),
        }
    }

    /// The phase in which every run starts: the first step is pending.
    pub fn start() -> (phase: Phase)
        ensures
            phase == Phase::Pending(step_at(0)),
    {
        Phase::Pending(Step::CheckTool)
    }

    /// The exit code with which the program ends in this phase, or `None`
    /// while the run is not over.
    pub fn exit_code(&self) -> (code: Option<i32>)
        ensures
            code == self.exit_code_spec(),
    {
        match self {
            Phase::Pending(_) => None,
            Phase::Succeeded => Some(0),
            Phase::Failed => Some(1),
        }
    }
}

/// Tells whether `outcome` counts as success of `step`.
pub fn step_succeeded(step: Step, outcome: &Outcome) -> (success: bool)
    ensures
        success == succeeds(step, outcome@),
{
    match step {
        Step::EnterProject | Step::WriteSchema => match outcome {
            Outcome::Completed => true,
            _ => false,
        },
        _ => match outcome {
            Outcome::Exited(Some(code)) => *code == 0,
            _ => false,
        },
    }
}

/// Builds what `step` asks of the outside world under `config`.
pub fn action_for(config: &Config, step: Step) -> (action: Action)
    ensures
        action@ == action_spec(config@, step),
{
    match step {
        Step::CheckTool => Action::Probe(probe_invocation()),
        Step::Scaffold => Action::Run(scaffold_invocation(config)),
        Step::EnterProject => Action::ChangeDirectory(config.project_name.clone()),
        Step::AddDependencies => Action::Run(add_dependencies_invocation()),
        Step::InitSchema => Action::Run(init_schema_invocation()),
        Step::WriteSchema => Action::WriteFile { path: schema_path(), content: basic_schema() },
        Step::GenerateClient => Action::Run(generate_client_invocation()),
        Step::InitComponents => Action::Run(init_components_invocation()),
    }
}

/// What is to be done next: lines to print, then an action to perform.
#[derive(Clone, Debug, PartialEq, Eq)]
pub struct Directive {
    pub lines: Vec<Line>,
    pub action: Action,
}

/// The mathematical value of a [`Directive`].
pub struct DirectiveView {
    pub lines: Seq<LineView>,
    pub action: ActionView,
}

impl View for Directive {
    type V = DirectiveView;

    open spec fn view(&self) -> DirectiveView {
        DirectiveView { lines: lines_view(self.lines@), action: self.action@ }
    }
}

/// What follows from the outcome of an action: lines to print, and the phase
/// in which the run goes on.
#[derive(Clone, Debug, PartialEq, Eq)]
pub struct Transition {
    pub lines: Vec<Line>,
    pub next: Phase,
}

/// The mathematical value of a [`Transition`].
pub struct TransitionView {
    pub lines: Seq<LineView>,
    pub next: Phase,
}

impl View for Transition {
    type V = TransitionView;

    open spec fn view(&self) -> TransitionView {
        TransitionView { lines: lines_view(self.lines@), next: self.next }
    }
}

/// What is to be done in `phase`: the announcement and the action of the
/// pending step, or nothing once the run is over.
pub open spec fn directive_spec(config: ConfigView, phase: Phase) -> Option<DirectiveView> {
    match phase {
        Phase::Pending(step) => Some(
            DirectiveView { lines: announcement_spec(step), action: action_spec(config, step) },
        ),
        _ => None,
    }
}

/// What follows when the action asked for in `phase` has ended with
/// `outcome`. A run that is over stays as it is and has nothing more to say.
pub open spec fn transition_spec(phase: Phase, outcome: OutcomeView) -> TransitionView {
    match phase {
        Phase::Pending(step) => TransitionView {
            lines: verdict_spec(step, outcome),
            next: phase_after(step, outcome),
        },
        _ => TransitionView { lines: Seq::empty(), next: phase },
    }
}

/// Says what is to be done in `phase`: `Some` with the lines to print and
/// the action to perform while a step is pending, `None` once the run has
/// succeeded or failed.
pub fn directive(config: &Config, phase: Phase) -> (next: Option<Directive>)
    ensures
        match next {
            Some(given) => directive_spec(config@, phase) == Some(given@),
            None => directive_spec(config@, phase).is_none(),
        },
{
    match phase {
        Phase::Pending(step) => Some(
            Directive { lines: announcement(step), action: action_for(config, step) },
        ),
        _ => None,
    }
}

/// Takes the run from `phase` to the next one, given the `outcome` of the
/// action that [`directive`] asked for: on to the following step, or to
/// success after the last one, when the step succeeded; to failure when it
/// did not. It also says what to print about the step.
pub fn advance(phase: Phase, outcome: &Outcome) -> (transition: Transition)
    ensures
        transition@ == transition_spec(phase, outcome@),
{
    match phase {
        Phase::Pending(step) => {
            let lines = verdict(step, outcome);
            let next = if step_succeeded(step, outcome) {
                match step.next() {
                    Some(following) => Phase::Pending(following),
                    None => Phase::Succeeded,
                }
            } else {
                Phase::Failed
            };
            Transition { lines, next }
        },
        _ => {
            let transition = Transition { lines: Vec::new(), next: phase };
            assert(transition@.lines =~= Seq::<LineView>::empty());
            transition
        },
    }
}

} // verus!
