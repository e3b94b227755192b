use vstd::prelude::*;

verus! {

/// What a run of the program does next.
#[derive(Clone, Copy, Debug, PartialEq, Eq, Structural)]
pub enum Action {
    /// Generate the RSA key pair.
    GenerateKey,
    /// Write the key encrypted with the default settings to the first path.
    WriteDefault,
    /// Write the key encrypted with the `openssl pkcs8` settings to the second path.
    WriteOpenssl,
    /// Stop with success.
    Finish,
    /// Stop with a failure status.
    Abort,
}

impl Action {
    /// The action writes a file.
    pub open spec fn writes(self) -> bool {
        self == Action::WriteDefault || self == Action::WriteOpenssl
    }
}

/// A run needs two paths; without them it stops before doing anything.
pub open spec fn first_action_spec(arg_count: nat) -> Action {
    if arg_count >= 2 {
        Action::GenerateKey
    } else {
        Action::Abort
    }
}

/// Each step runs after the one before it succeeded; any failure stops the run.
pub open spec fn next_action_spec(done: Action, succeeded: bool) -> Action {
    match done {
        Action::GenerateKey => if succeeded {
            Action::WriteDefault
        } else {
            Action::Abort
        },
        Action::WriteDefault => if succeeded {
            Action::WriteOpenssl
        } else {
            Action::Abort
        },
        Action::WriteOpenssl => if succeeded {
            Action::Finish
        } else {
            Action::Abort
        },
        Action::Finish => Action::Finish,
        Action::Abort => Action::Abort,
    }
}

/// The action that a run with `arg_count` path arguments reaches once the
/// actions before it had the outcomes `outcomes`, in order.
pub open spec fn action_after(arg_count: nat, outcomes: Seq<bool>) -> Action
    decreases outcomes.len(),
{
    if outcomes.len() == 0 {
        first_action_spec(arg_count)
    } else {
        next_action_spec(action_after(arg_count, outcomes.drop_last()), outcomes.last())
    }
}

/// The first action of a run given `arg_count` path arguments.
pub fn first_action(arg_count: usize) -> (a: Action)
    ensures
        a == first_action_spec(arg_count as nat),
{
    if arg_count >= 2 {
        Action::GenerateKey
    } else {
        Action::Abort
    }
}

/// The action that follows `done`, given whether `done` succeeded.
pub fn next_action(done: Action, succeeded: bool) -> (a: Action)
    ensures
        a == next_action_spec(done, succeeded),
{
    match done {
        Action::GenerateKey => if succeeded {
            Action::WriteDefault
        } else {
            Action::Abort
        },
        Action::WriteDefault => if succeeded {
            Action::WriteOpenssl
        } else {
            Action::Abort
        },
        Action::WriteOpenssl => if succeeded {
            Action::Finish
        } else {
            Action::Abort
        },
        Action::Finish => Action::Finish,
        Action::Abort => Action::Abort,
    }
}

/// With fewer than two path arguments a run aborts at once and, whatever
/// happens, never writes a file.
pub proof fn lemma_missing_argument_writes_nothing(arg_count: nat, outcomes: Seq<bool>)
    requires
        arg_count < 2,
    ensures
        action_after(arg_count, outcomes) == Action::Abort,
        !action_after(arg_count, outcomes).writes(),
    decreases outcomes.len(),
{
    if outcomes.len() > 0 {
        lemma_missing_argument_writes_nothing(arg_count, outcomes.drop_last());
    }
}

/// Once a run has aborted it stays aborted.
pub proof fn lemma_abort_is_final(arg_count: nat, outcomes: Seq<bool>, k: int)
    requires
        0 <= k <= outcomes.len(),
        action_after(arg_count, outcomes.take(k)) == Action::Abort,
    ensures
        action_after(arg_count, outcomes) == Action::Abort,
    decreases outcomes.len() - k,
{
    if k < outcomes.len() {
        assert(outcomes.take(k + 1).drop_last() == outcomes.take(k));
        lemma_abort_is_final(arg_count, outcomes, k + 1);
    } else {
        assert(outcomes.take(k) == outcomes);
    }
}

/// When writing the first file fails, the run aborts and the second file is
/// never written.
pub proof fn lemma_failed_first_write_stops_run(arg_count: nat, outcomes: Seq<bool>, k: int)
    requires
        0 <= k < outcomes.len(),
        action_after(arg_count, outcomes.take(k)) == Action::WriteDefault,
        !outcomes[k],
    ensures
        action_after(arg_count, outcomes) == Action::Abort,
        forall|j: int|
            k < j <= outcomes.len() ==> action_after(arg_count, #[trigger] outcomes.take(j))
                != Action::WriteOpenssl,
{
    assert(outcomes.take(k + 1).drop_last() == outcomes.take(k));
    assert forall|j: int| k < j <= outcomes.len() implies action_after(
        arg_count,
        #[trigger] outcomes.take(j),
    ) == Action::Abort by {
        let pre = outcomes.take(j);
        assert(pre.take(k + 1) == outcomes.take(k + 1));
        lemma_abort_is_final(arg_count, pre, k + 1);
    }
    assert(outcomes.take(outcomes.len() as int) == outcomes);
}

/// The second file is written only right after the first was written
/// successfully.
pub proof fn lemma_second_write_follows_first(arg_count: nat, outcomes: Seq<bool>)
    requires
        action_after(arg_count, outcomes) == Action::WriteOpenssl,
    ensures
        outcomes.len() >= 1,
        action_after(arg_count, outcomes.drop_last()) == Action::WriteDefault,
        outcomes.last(),
{
}

} // verus!
