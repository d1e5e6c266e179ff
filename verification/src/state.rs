//! The wizard's lifecycle: a tagged state with four variants and a
//! one-directional transition relation.

use vstd::prelude::*;

verus! {

/// The phase of the wizard's lifecycle. `Error` carries the diagnostic
/// text shown to the user.
pub enum SetupState {
    Idle,
    Running,
    Complete,
    Error(String),
}

/// The transition relation of the lifecycle: a state may stay where it is,
/// `Idle` may move to `Running`, and `Running` may resolve to `Complete`
/// or to `Error`. `Complete` and `Error` are terminal.
pub open spec fn step_allowed(pre: SetupState, post: SetupState) -> bool {
    match pre {
        SetupState::Idle => post is Idle || post is Running,
        SetupState::Running => !(post is Idle),
        SetupState::Complete => post is Complete,
        SetupState::Error(_) => post == pre,
    }
}

/// Transitions are one-directional: nothing ever returns to `Idle`, a
/// completed run stays completed, and a failed run keeps its message.
pub proof fn lemma_steps_one_directional(pre: SetupState, post: SetupState)
    requires
        step_allowed(pre, post),
    ensures
        post is Idle ==> pre is Idle,
        pre is Complete ==> post is Complete,
        pre is Error ==> post == pre,
{
}

/// Which states a chain of allowed transitions can ever lead to:
/// the reflexive-transitive closure of [`step_allowed`].
pub open spec fn reachable(pre: SetupState, post: SetupState) -> bool {
    match pre {
        SetupState::Idle => true,
        SetupState::Running => !(post is Idle),
        SetupState::Complete => post is Complete,
        SetupState::Error(_) => post == pre,
    }
}

/// A single allowed transition stays within the closure.
pub proof fn lemma_step_reachable(a: SetupState, b: SetupState)
    requires
        step_allowed(a, b),
    ensures
        reachable(a, b),
{
}

/// The closure is transitive, so the one-directional shape of the
/// lifecycle holds over any number of allowed transitions.
pub proof fn lemma_reachable_transitive(a: SetupState, b: SetupState, c: SetupState)
    requires
        reachable(a, b),
        reachable(b, c),
    ensures
        reachable(a, c),
{
}

} // verus!
