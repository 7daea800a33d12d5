//! Whole runs of the pipeline, and what holds of every one of them.
//!
//! A run is described by the outcomes that the outside world gives, in the
//! order in which the actions are asked for. The run consumes one outcome per
//! step and stops asking as soon as it is over.

use crate::config::ConfigView;
use crate::pipeline::{
    action_spec, phase_after, step_at, step_count, succeeds, ActionView, OutcomeView, Phase, Step,
};
use crate::schema::{SCHEMA_PATH, SCHEMA_TEMPLATE};
use vstd::prelude::*;

verus! {

/// The phase that a run reaches from `phase` when its actions end with
/// `outcomes`, one after the other.
pub open spec fn phase_reached(phase: Phase, outcomes: Seq<OutcomeView>) -> Phase
    decreases outcomes.len(),
{
    if outcomes.len() == 0 {
        phase
    } else {
        match phase {
            Phase::Pending(step) => phase_reached(
                phase_after(step, outcomes[0]),
                outcomes.drop_first(),
            ),
            _ => phase,
        }
    }
}

/// The steps that such a run performs, in order: those whose action was
/// asked for and answered.
pub open spec fn steps_performed(phase: Phase, outcomes: Seq<OutcomeView>) -> Seq<Step>
    decreases outcomes.len(),
{
    if outcomes.len() == 0 {
        Seq::empty()
    } else {
        match phase {
            Phase::Pending(step) => seq![step] + steps_performed(
                phase_after(step, outcomes[0]),
                outcomes.drop_first(),
            ),
            _ => Seq::empty(),
        }
    }
}

/// The first `count` steps of the sequence.
pub open spec fn first_steps(count: int) -> Seq<Step> {
    Seq::new(count as nat, |i: int| step_at(i))
}

/// The steps of the sequence from place `from` on, `count` of them.
spec fn steps_from(from: int, count: int) -> Seq<Step> {
    Seq::new(count as nat, |i: int| step_at(from + i))
}

/// A run that starts at place `from`, whose first `k` steps succeed and
/// whose next step does not, fails after exactly these `k + 1` steps.
proof fn lemma_fails_from(from: int, outcomes: Seq<OutcomeView>, k: int)
    requires
        0 <= from,
        0 <= k < outcomes.len(),
        from + k < step_count(),
        forall|i: int| 0 <= i < k ==> succeeds(step_at(from + i), #[trigger] outcomes[i]),
        !succeeds(step_at(from + k), outcomes[k]),
    ensures
        phase_reached(Phase::Pending(step_at(from)), outcomes) == Phase::Failed,
        steps_performed(Phase::Pending(step_at(from)), outcomes) == steps_from(from, k + 1),
    decreases k,
{
    let step = step_at(from);
    let rest = outcomes.drop_first();
    if k == 0 {
        assert(phase_after(step, outcomes[0]) == Phase::Failed);
        assert(phase_reached(Phase::Failed, rest) == Phase::Failed);
        assert(steps_performed(Phase::Failed, rest) == Seq::<Step>::empty());
        assert(seq![step] + Seq::<Step>::empty() =~= steps_from(from, 1));
    } else {
        assert(succeeds(step, outcomes[0]));
        assert(step.successor() == Some(step_at(from + 1)));
        assert forall|i: int| 0 <= i < k - 1 implies succeeds(
            step_at(from + 1 + i),
            #[trigger] rest[i],
        ) by {
            assert(rest[i] == outcomes[i + 1]);
        }
        assert(rest[k - 1] == outcomes[k]);
        lemma_fails_from(from + 1, rest, k - 1);
        assert(seq![step] + steps_from(from + 1, k) =~= steps_from(from, k + 1));
    }
}

/// A run that starts at place `from` and whose remaining steps all succeed
/// ends in success after exactly these steps.
proof fn lemma_succeeds_from(from: int, outcomes: Seq<OutcomeView>)
    requires
        0 <= from < step_count(),
        outcomes.len() >= step_count() - from,
        forall|i: int|
            0 <= i < step_count() - from ==> succeeds(step_at(from + i), #[trigger] outcomes[i]),
    ensures
        phase_reached(Phase::Pending(step_at(from)), outcomes) == Phase::Succeeded,
        steps_performed(Phase::Pending(step_at(from)), outcomes) == steps_from(
            from,
            step_count() - from,
        ),
    decreases step_count() - from,
{
    let step = step_at(from);
    let rest = outcomes.drop_first();
    assert(succeeds(step, outcomes[0]));
    if from + 1 == step_count() {
        assert(phase_after(step, outcomes[0]) == Phase::Succeeded);
        assert(phase_reached(Phase::Succeeded, rest) == Phase::Succeeded);
        assert(steps_performed(Phase::Succeeded, rest) == Seq::<Step>::empty());
        assert(seq![step] + Seq::<Step>::empty() =~= steps_from(from, 1));
    } else {
        assert(step.successor() == Some(step_at(from + 1)));
        assert forall|i: int| 0 <= i < step_count() - from - 1 implies succeeds(
            step_at(from + 1 + i),
            #[trigger] rest[i],
        ) by {
            assert(rest[i] == outcomes[i + 1]);
        }
        lemma_succeeds_from(from + 1, rest);
        assert(seq![step] + steps_from(from + 1, step_count() - from - 1) =~= steps_from(
            from,
            step_count() - from,
        ));
    }
}

/// The first step that does not succeed ends the run: if the steps before
/// place `k` succeed and the step at place `k` does not, the run fails, the
/// program ends with exit code 1, and the steps performed are the first
/// `k + 1` and no more, whatever outcomes might have followed.
pub proof fn lemma_first_failure_ends_the_run(outcomes: Seq<OutcomeView>, k: int)
    requires
        0 <= k < outcomes.len(),
        k < step_count(),
        forall|i: int| 0 <= i < k ==> succeeds(step_at(i), #[trigger] outcomes[i]),
        !succeeds(step_at(k), outcomes[k]),
    ensures
        phase_reached(Phase::Pending(step_at(0)), outcomes) == Phase::Failed,
        phase_reached(Phase::Pending(step_at(0)), outcomes).exit_code_spec() == Some(1i32),
        steps_performed(Phase::Pending(step_at(0)), outcomes) == first_steps(k + 1),
{
    lemma_fails_from(0, outcomes, k);
    assert(steps_from(0, k + 1) =~= first_steps(k + 1));
}

/// If the package manager cannot be started, the run fails at once: the
/// program ends with exit code 1, and the check is the only step performed,
/// so that no other program is started.
pub proof fn lemma_missing_tool_ends_the_run(outcomes: Seq<OutcomeView>)
    requires
        outcomes.len() > 0,
        outcomes[0] is Failed,
    ensures
        phase_reached(Phase::Pending(step_at(0)), outcomes) == Phase::Failed,
        phase_reached(Phase::Pending(step_at(0)), outcomes).exit_code_spec() == Some(1i32),
        steps_performed(Phase::Pending(step_at(0)), outcomes) == seq![Step::CheckTool],
{
    lemma_first_failure_ends_the_run(outcomes, 0);
    assert(first_steps(1) =~= seq![Step::CheckTool]);
}

/// If a program that a step starts ends with anything but exit code zero,
/// after steps that all succeeded, the run fails there: the program ends with
/// exit code 1 and no later step is performed. This holds of every step that
/// starts a program, the check of the package manager included.
pub proof fn lemma_nonzero_exit_ends_the_run(
    config: ConfigView,
    outcomes: Seq<OutcomeView>,
    k: int,
)
    requires
        0 <= k < outcomes.len(),
        k < step_count(),
        forall|i: int| 0 <= i < k ==> succeeds(step_at(i), #[trigger] outcomes[i]),
        action_spec(config, step_at(k)) is Run || action_spec(config, step_at(k)) is Probe,
        outcomes[k] is Exited,
        outcomes[k] != OutcomeView::Exited(Some(0i32)),
    ensures
        phase_reached(Phase::Pending(step_at(0)), outcomes) == Phase::Failed,
        phase_reached(Phase::Pending(step_at(0)), outcomes).exit_code_spec() == Some(1i32),
        steps_performed(Phase::Pending(step_at(0)), outcomes) == first_steps(k + 1),
{
    lemma_first_failure_ends_the_run(outcomes, k);
}

/// If every step succeeds, the run succeeds: the program ends with exit code
/// 0 after all the steps were performed, each once and in order.
pub proof fn lemma_all_successes_complete_the_run(outcomes: Seq<OutcomeView>)
    requires
        outcomes.len() >= step_count(),
        forall|i: int| 0 <= i < step_count() ==> succeeds(step_at(i), #[trigger] outcomes[i]),
    ensures
        phase_reached(Phase::Pending(step_at(0)), outcomes) == Phase::Succeeded,
        phase_reached(Phase::Pending(step_at(0)), outcomes).exit_code_spec() == Some(0i32),
        steps_performed(Phase::Pending(step_at(0)), outcomes) == first_steps(step_count()),
{
    lemma_succeeds_from(0, outcomes);
    assert(steps_from(0, step_count()) =~= first_steps(step_count()));
}

/// A run that is over performs nothing more and stays where it is.
pub proof fn lemma_over_is_over(phase: Phase, outcomes: Seq<OutcomeView>)
    requires
        !(phase is Pending),
    ensures
        phase_reached(phase, outcomes) == phase,
        steps_performed(phase, outcomes) == Seq::<Step>::empty(),
{
}

/// The schema file does not depend on the configuration: whatever the
/// project's name and toggles are, the step that writes it asks for the same
/// path and the same content.
pub proof fn lemma_schema_is_the_same_for_all(a: ConfigView, b: ConfigView)
    ensures
        action_spec(a, Step::WriteSchema) == action_spec(b, Step::WriteSchema),
        action_spec(a, Step::WriteSchema) == (ActionView::WriteFile {
            path: SCHEMA_PATH@,
            content: SCHEMA_TEMPLATE@,
        }),
{
}

} // verus!
