//! The liveness query.

use vstd::prelude::*;

verus! {

/// The answer that the liveness query gives: the plugin is loaded, so the
/// application it belongs to is running.
pub open spec fn running() -> bool {
    true
}

/// Answers whether the application is running. It takes nothing, keeps no
/// state and cannot fail.
pub fn is_running() -> (r: bool)
    ensures
        r == running(),
        r,
{
    true
}

/// The liveness query is referentially transparent: whatever run of answers it
/// has given, each met its contract, so the run is `true` as many times as the
/// query was made, and no call changed what a later one returns.
pub proof fn lemma_repeated_queries(answers: Seq<bool>)
    requires
        forall|i: int| 0 <= i < answers.len() ==> #[trigger] answers[i] == running(),
    ensures
        answers == Seq::new(answers.len(), |_i: int| true),
{
    assert(answers =~= Seq::new(answers.len(), |_i: int| true));
}

} // verus!
