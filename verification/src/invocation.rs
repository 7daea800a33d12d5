//! The command lines of the external tools.
//!
//! Every command line is a function of the configuration alone. The only one
//! that depends on it at all is the one that generates the project: it carries
//! the project's name and one switch for each toggle.

use crate::config::{Config, ConfigView};
use crate::text::{push_text, texts};
use vstd::prelude::*;

verus! {

/// The package manager, which also generates the project.
pub const BUN: &'static str = "bun";

/// The package runner.
pub const BUNX: &'static str = "bunx";

pub const SWITCH_TYPESCRIPT: &'static str = "--typescript";

pub const SWITCH_JAVASCRIPT: &'static str = "--javascript";

pub const SWITCH_TAILWIND: &'static str = "--tailwind";

pub const SWITCH_NO_TAILWIND: &'static str = "--no-tailwind";

pub const SWITCH_ESLINT: &'static str = "--eslint";

pub const SWITCH_NO_ESLINT: &'static str = "--no-eslint";

pub const SWITCH_APP: &'static str = "--app";

pub const SWITCH_NO_APP: &'static str = "--no-app";

pub const SWITCH_SKIP_INSTALL: &'static str = "--skip-install";

/// A program and the arguments it is started with.
#[derive(Clone, Debug, PartialEq, Eq)]
pub struct Invocation {
    pub program: String,
    pub args: Vec<String>,
}

/// The mathematical value of an [`Invocation`].
pub struct InvocationView {
    pub program: Seq<char>,
    pub args: Seq<Seq<char>>,
}

impl View for Invocation {
    type V = InvocationView;

    open spec fn view(&self) -> InvocationView {
        InvocationView { program: self.program@, args: texts(self.args@) }
    }
}

/// The switch that a toggle contributes: `on` when it is set, `off` when not.
pub open spec fn switch_for(flag: bool, on: Seq<char>, off: Seq<char>) -> Seq<char> {
    if flag {
        on
    } else {
        off
    }
}

/// The switches of the generator's command line: one per toggle, in a fixed
/// order, and the request to skip the installation prompt where it was made.
pub open spec fn scaffold_switches(config: ConfigView) -> Seq<Seq<char>> {
    let toggles = seq![
        switch_for(config.typescript, SWITCH_TYPESCRIPT@, SWITCH_JAVASCRIPT@),
        switch_for(config.tailwind, SWITCH_TAILWIND@, SWITCH_NO_TAILWIND@),
        switch_for(config.eslint, SWITCH_ESLINT@, SWITCH_NO_ESLINT@),
        switch_for(config.app, SWITCH_APP@, SWITCH_NO_APP@),
    ];
    if config.skip_install {
        toggles.push(SWITCH_SKIP_INSTALL@)
    } else {
        toggles
    }
}

/// The command line that generates the project.
pub open spec fn scaffold_spec(config: ConfigView) -> InvocationView {
    InvocationView {
        program: BUN@,
        args: seq!["create"@, "next-app"@, config.project_name] + scaffold_switches(config),
    }
}

/// The command line that asks the package manager for its version, to see
/// that it is there and works.
pub open spec fn probe_spec() -> InvocationView {
    InvocationView { program: BUN@, args: seq!["--version"@] }
}

/// The command line that adds the schema toolkit to the project.
pub open spec fn add_dependencies_spec() -> InvocationView {
    InvocationView { program: BUN@, args: seq!["add"@, "prisma"@, "@prisma/client"@] }
}

/// The command line that sets the schema toolkit up for SQLite.
pub open spec fn init_schema_spec() -> InvocationView {
    InvocationView {
        program: BUNX@,
        args: seq!["prisma"@, "init"@, "--datasource-provider"@, "sqlite"@],
    }
}

/// The command line that generates the database client from the schema.
pub open spec fn generate_client_spec() -> InvocationView {
    InvocationView { program: BUNX@, args: seq!["prisma"@, "generate"@] }
}

/// The command line that sets up the component library.
pub open spec fn init_components_spec() -> InvocationView {
    InvocationView { program: BUNX@, args: seq!["shadcn@latest"@, "init"@] }
}

/// Whether `text` is one of the eight switches that come in pairs.
pub open spec fn is_toggle_switch(text: Seq<char>) -> bool {
    ||| text == SWITCH_TYPESCRIPT@
    ||| text == SWITCH_JAVASCRIPT@
    ||| text == SWITCH_TAILWIND@
    ||| text == SWITCH_NO_TAILWIND@
    ||| text == SWITCH_ESLINT@
    ||| text == SWITCH_NO_ESLINT@
    ||| text == SWITCH_APP@
    ||| text == SWITCH_NO_APP@
}

/// `args` holds the switch that `flag` selects, `on` or `off`, at exactly one
/// place, and holds neither `on` nor `off` at any other place.
pub open spec fn exactly_one_of(
    args: Seq<Seq<char>>,
    flag: bool,
    on: Seq<char>,
    off: Seq<char>,
) -> bool {
    exists|i: int|
        {
            &&& 0 <= i < args.len()
            &&& #[trigger] args[i] == switch_for(flag, on, off)
            &&& forall|j: int|
                0 <= j < args.len() && j != i ==> #[trigger] args[j] != on && args[j] != off
        }
}

/// Every toggle is answered by exactly one switch of its pair, the one that
/// matches the toggle's value.
pub open spec fn answers_every_toggle(args: Seq<Seq<char>>, config: ConfigView) -> bool {
    &&& exactly_one_of(args, config.typescript, SWITCH_TYPESCRIPT@, SWITCH_JAVASCRIPT@)
    &&& exactly_one_of(args, config.tailwind, SWITCH_TAILWIND@, SWITCH_NO_TAILWIND@)
    &&& exactly_one_of(args, config.eslint, SWITCH_ESLINT@, SWITCH_NO_ESLINT@)
    &&& exactly_one_of(args, config.app, SWITCH_APP@, SWITCH_NO_APP@)
}

/// What tells the fixed words of the generator's command line apart: the
/// length, the first character and the third.
spec fn mark(text: Seq<char>) -> (nat, char, char) {
    (text.len(), text[0], text[2])
}

proof fn lemma_marks()
    ensures
        mark("create"@) == (6nat, 'c', 'e'),
        mark("next-app"@) == (8nat, 'n', 'x'),
        mark(SWITCH_TYPESCRIPT@) == (12nat, '-', 't'),
        mark(SWITCH_JAVASCRIPT@) == (12nat, '-', 'j'),
        mark(SWITCH_TAILWIND@) == (10nat, '-', 't'),
        mark(SWITCH_NO_TAILWIND@) == (13nat, '-', 'n'),
        mark(SWITCH_ESLINT@) == (8nat, '-', 'e'),
        mark(SWITCH_NO_ESLINT@) == (11nat, '-', 'n'),
        mark(SWITCH_APP@) == (5nat, '-', 'a'),
        mark(SWITCH_NO_APP@) == (8nat, '-', 'n'),
        mark(SWITCH_SKIP_INSTALL@) == (14nat, '-', 's'),
{
    reveal_strlit("create");
    reveal_strlit("next-app");
    reveal_strlit("--typescript");
    reveal_strlit("--javascript");
    reveal_strlit("--tailwind");
    reveal_strlit("--no-tailwind");
    reveal_strlit("--eslint");
    reveal_strlit("--no-eslint");
    reveal_strlit("--app");
    reveal_strlit("--no-app");
    reveal_strlit("--skip-install");
}

/// The enabling switch of the toggle that stands at `place` among the
/// switches.
spec fn on_switch(place: int) -> Seq<char> {
    if place == 0 {
        SWITCH_TYPESCRIPT@
    } else if place == 1 {
        SWITCH_TAILWIND@
    } else if place == 2 {
        SWITCH_ESLINT@
    } else {
        SWITCH_APP@
    }
}

/// The disabling switch of the toggle that stands at `place`.
spec fn off_switch(place: int) -> Seq<char> {
    if place == 0 {
        SWITCH_JAVASCRIPT@
    } else if place == 1 {
        SWITCH_NO_TAILWIND@
    } else if place == 2 {
        SWITCH_NO_ESLINT@
    } else {
        SWITCH_NO_APP@
    }
}

/// Among the switches, neither switch of a toggle stands anywhere but at the
/// toggle's own place.
proof fn lemma_switch_stands_alone(config: ConfigView, place: int, other: int)
    requires
        0 <= place < 4,
        0 <= other < scaffold_switches(config).len(),
        other != place,
    ensures
        scaffold_switches(config)[other] != on_switch(place),
        scaffold_switches(config)[other] != off_switch(place),
{
    lemma_marks();
    let found = scaffold_switches(config)[other];
    assert(mark(found) != mark(on_switch(place)));
    assert(mark(found) != mark(off_switch(place)));
}

/// Neither of the two words before the project's name is a paired switch:
/// every switch begins with a dash, and they do not.
proof fn lemma_subcommand_is_no_switch()
    ensures
        !is_toggle_switch("create"@),
        !is_toggle_switch("next-app"@),
{
    lemma_marks();
}

/// Whatever the toggles are, the switches of the generator's command line
/// answer each toggle exactly once and truthfully: the list holds exactly one
/// switch of each pair, the enabling one if the toggle is set and the
/// disabling one if it is not.
pub proof fn lemma_switches_answer_every_toggle(config: ConfigView)
    ensures
        answers_every_toggle(scaffold_switches(config), config),
{
    let args = scaffold_switches(config);
    assert forall|place: int, j: int|
        0 <= place < 4 && 0 <= j < args.len() && j != place implies #[trigger] args[j]
        != on_switch(place) && args[j] != #[trigger] off_switch(place) by {
        lemma_switch_stands_alone(config, place, j);
    }
    assert(args[0] == switch_for(config.typescript, on_switch(0), off_switch(0)));
    assert(args[1] == switch_for(config.tailwind, on_switch(1), off_switch(1)));
    assert(args[2] == switch_for(config.eslint, on_switch(2), off_switch(2)));
    assert(args[3] == switch_for(config.app, on_switch(3), off_switch(3)));
}

/// The same holds of the whole argument list, provided the project's name is
/// not itself one of the paired switches: a project named like a switch would
/// stand in the list beside the switches proper.
pub proof fn lemma_arguments_answer_every_toggle(config: ConfigView)
    requires
        !is_toggle_switch(config.project_name),
    ensures
        answers_every_toggle(scaffold_spec(config).args, config),
{
    lemma_subcommand_is_no_switch();
    let args = scaffold_spec(config).args;
    let switches = scaffold_switches(config);
    assert(args.len() == 3 + switches.len());
    assert forall|place: int, j: int|
        0 <= place < 4 && 0 <= j < args.len() && j != place + 3 implies #[trigger] args[j]
        != on_switch(place) && args[j] != #[trigger] off_switch(place) by {
        if j >= 3 {
            assert(args[j] == switches[j - 3]);
            lemma_switch_stands_alone(config, place, j - 3);
        } else {
            assert(!is_toggle_switch(args[j]));
        }
    }
    assert(args[3] == switch_for(config.typescript, on_switch(0), off_switch(0)));
    assert(args[4] == switch_for(config.tailwind, on_switch(1), off_switch(1)));
    assert(args[5] == switch_for(config.eslint, on_switch(2), off_switch(2)));
    assert(args[6] == switch_for(config.app, on_switch(3), off_switch(3)));
}

fn switch<'a>(flag: bool, on: &'a str, off: &'a str) -> (chosen: &'a str)
    ensures
        chosen@ == switch_for(flag, on@, off@),
{
    if flag {
        on
    } else {
        off
    }
}

/// Builds the command line that generates the project: `create next-app`, the
/// project's name, then for each toggle the switch that turns the feature on
/// or the one that turns it off, and last the request to skip the
/// installation prompt if it was made.
pub fn scaffold_invocation(config: &Config) -> (invocation: Invocation)
    ensures
        invocation@ == scaffold_spec(config@),
{
    let mut args: Vec<String> = Vec::new();
    push_text(&mut args, "create");
    push_text(&mut args, "next-app");
    push_text(&mut args, config.project_name.as_str());
    push_text(&mut args, switch(config.typescript, SWITCH_TYPESCRIPT, SWITCH_JAVASCRIPT));
    push_text(&mut args, switch(config.tailwind, SWITCH_TAILWIND, SWITCH_NO_TAILWIND));
    push_text(&mut args, switch(config.eslint, SWITCH_ESLINT, SWITCH_NO_ESLINT));
    push_text(&mut args, switch(config.app, SWITCH_APP, SWITCH_NO_APP));
    if config.skip_install {
        push_text(&mut args, SWITCH_SKIP_INSTALL);
    }
    let invocation = Invocation { program: BUN.to_owned(), args };
    assert(invocation@.args =~= scaffold_spec(config@).args);
    invocation
}

/// Builds the command line that asks the package manager for its version.
pub fn probe_invocation() -> (invocation: Invocation)
    ensures
        invocation@ == probe_spec(),
{
    let mut args: Vec<String> = Vec::new();
    push_text(&mut args, "--version");
    let invocation = Invocation { program: BUN.to_owned(), args };
    assert(invocation@.args =~= probe_spec().args);
    invocation
}

/// Builds the command line that adds the schema toolkit and its client.
pub fn add_dependencies_invocation() -> (invocation: Invocation)
    ensures
        invocation@ == add_dependencies_spec(),
{
    let mut args: Vec<String> = Vec::new();
    push_text(&mut args, "add");
    push_text(&mut args, "prisma");
    push_text(&mut args, "@prisma/client");
    let invocation = Invocation { program: BUN.to_owned(), args };
    assert(invocation@.args =~= add_dependencies_spec().args);
    invocation
}

/// Builds the command line that initialises the schema toolkit.
pub fn init_schema_invocation() -> (invocation: Invocation)
    ensures
        invocation@ == init_schema_spec(),
{
    let mut args: Vec<String> = Vec::new();
    push_text(&mut args, "prisma");
    push_text(&mut args, "init");
    push_text(&mut args, "--datasource-provider");
    push_text(&mut args, "sqlite");
    let invocation = Invocation { program: BUNX.to_owned(), args };
    assert(invocation@.args =~= init_schema_spec().args);
    invocation
}

/// Builds the command line that generates the database client.
pub fn generate_client_invocation() -> (invocation: Invocation)
    ensures
        invocation@ == generate_client_spec(),
{
    let mut args: Vec<String> = Vec::new();
    push_text(&mut args, "prisma");
    push_text(&mut args, "generate");
    let invocation = Invocation { program: BUNX.to_owned(), args };
    assert(invocation@.args =~= generate_client_spec().args);
    invocation
}

/// Builds the command line that initialises the component library.
pub fn init_components_invocation() -> (invocation: Invocation)
    ensures
        invocation@ == init_components_spec(),
{
    let mut args: Vec<String> = Vec::new();
    push_text(&mut args, "shadcn@latest");
    push_text(&mut args, "init");
    let invocation = Invocation { program: BUNX.to_owned(), args };
    assert(invocation@.args =~= init_components_spec().args);
    invocation
}

} // verus!
