//! Properties of a turn that hold for every graph, cursor and answer.
use vstd::prelude::*;
use crate::engine::{turn_taken, DialogEngine, EngineError, TurnOutcome};
use crate::graph::{
    exit_id, is_first_option, lemma_first_option_unique, node_index, option_index, DialogOption,
};
use crate::template::render;

verus! {

/// The options of the node under the engine's cursor.
pub open spec fn current_options(e: DialogEngine) -> Seq<DialogOption> {
    e.graph.nodes@[node_index(e.graph.nodes@, e.cursor())->0].options@
}

/// When the classifier echoes the exact label of an option of the current
/// node (the first option with that label), the turn follows that option:
/// to its `next_id`, or to the end of the conversation when that is `"exit"`.
pub proof fn lemma_echoed_label_is_followed(
    before: DialogEngine,
    after: DialogEngine,
    k: int,
    r: Result<TurnOutcome, EngineError>,
)
    requires
        before.is_running(),
        node_index(before.graph.nodes@, before.cursor()) is Some,
        is_first_option(current_options(before), current_options(before)[k].label@, k),
        turn_taken(before, after, current_options(before)[k].label@, r),
    ensures
        current_options(before)[k].next_id@ == exit_id() ==> !after.is_running() && r == Ok::<
            TurnOutcome,
            EngineError,
        >(TurnOutcome::Exited),
        current_options(before)[k].next_id@ != exit_id() ==> after.is_running() && after.cursor()
            == current_options(before)[k].next_id@ && r == Ok::<TurnOutcome, EngineError>(
            TurnOutcome::Advanced,
        ),
{
    lemma_first_option_unique(current_options(before), current_options(before)[k].label@, k);
}

/// An answer that equals no label of the current node (whatever else it is:
/// empty, blank, or a label of another node) leaves the cursor where it was
/// and reports a non-match.
pub proof fn lemma_unmatched_answer_stays(
    before: DialogEngine,
    after: DialogEngine,
    answer: Seq<char>,
    r: Result<TurnOutcome, EngineError>,
)
    requires
        before.is_running(),
        node_index(before.graph.nodes@, before.cursor()) is Some,
        forall|k: int|
            0 <= k < current_options(before).len() ==> #[trigger] current_options(before)[k].label@
                != answer,
        turn_taken(before, after, answer, r),
    ensures
        after.state == before.state,
        after.cursor() == before.cursor(),
        r == Ok::<TurnOutcome, EngineError>(TurnOutcome::NoMatch),
{
    assert(option_index(current_options(before), answer) is None);
}

/// The same graph, cursor and answer always give the same decision: the
/// same outcome and the same cursor afterwards.
pub proof fn lemma_turn_is_deterministic(
    before1: DialogEngine,
    after1: DialogEngine,
    r1: Result<TurnOutcome, EngineError>,
    before2: DialogEngine,
    after2: DialogEngine,
    r2: Result<TurnOutcome, EngineError>,
    answer: Seq<char>,
)
    requires
        before1.graph == before2.graph,
        before1.is_running(),
        before2.is_running(),
        before1.cursor() == before2.cursor(),
        turn_taken(before1, after1, answer, r1),
        turn_taken(before2, after2, answer, r2),
    ensures
        r1 is Ok <==> r2 is Ok,
        r1 is Ok ==> r1 == r2,
        after1.is_running() == after2.is_running(),
        after1.cursor() == after2.cursor(),
{
}

/// Taking an option whose `next_id` is `"exit"` ends the conversation,
/// whichever node it belongs to.
pub proof fn lemma_exit_option_terminates(
    before: DialogEngine,
    after: DialogEngine,
    answer: Seq<char>,
    r: Result<TurnOutcome, EngineError>,
)
    requires
        before.is_running(),
        node_index(before.graph.nodes@, before.cursor()) is Some,
        option_index(current_options(before), answer) is Some,
        current_options(before)[option_index(current_options(before), answer)->0].next_id@
            == exit_id(),
        turn_taken(before, after, answer, r),
    ensures
        !after.is_running(),
        r == Ok::<TurnOutcome, EngineError>(TurnOutcome::Exited),
{
}

/// Rendering depends on the template text and the three values alone: equal
/// inputs give identical prompts.
pub proof fn lemma_render_is_pure(
    template1: Seq<char>,
    template2: Seq<char>,
    decision_prompt: Seq<char>,
    option_list: Seq<char>,
    user_response: Seq<char>,
)
    requires
        template1 == template2,
    ensures
        render(template1, decision_prompt, option_list, user_response) == render(
            template2,
            decision_prompt,
            option_list,
            user_response,
        ),
{
}

} // verus!
