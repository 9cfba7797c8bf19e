//! Restarting a task until it succeeds: after each attempt, a success is
//! returned and a failure is logged and followed by a fresh attempt, with no
//! limit and no pause.

use vstd::prelude::*;
use vstd::string::StringExecFns;

verus! {

/// What follows an attempt.
#[derive(Debug, Clone, PartialEq, Eq)]
pub enum RetryDecision<T> {
    /// The attempt succeeded: stop with its value.
    Return(T),
    /// The attempt failed: log `log`, then try again.
    Retry { log: String },
}

/// The log line for a failed attempt with error `e`.
pub open spec fn failure_log(e: Seq<char>) -> Seq<char> {
    "Error: "@ + e + "\nretrying..."@
}

/// Decides what follows an attempt that ended with `outcome`.
pub fn after_attempt<T>(outcome: Result<T, String>) -> (r: RetryDecision<T>)
    ensures
        outcome matches Ok(v) ==> r == RetryDecision::<T>::Return(v),
        outcome matches Err(e) ==> (r matches RetryDecision::Retry { log } && log@
            == failure_log(e@)),
{
    match outcome {
        Ok(v) => RetryDecision::Return(v),
        Err(e) => {
            let mut log = "Error: ".to_owned();
            log.append(e.as_str());
            log.append("\nretrying...");
            RetryDecision::Retry { log }
        },
    }
}

/// The log lines written and the value returned when the attempts end with
/// `outcomes` in turn: attempts stop at the first success.
pub open spec fn supervised<T>(outcomes: Seq<Result<T, String>>) -> (Seq<Seq<char>>, Option<T>)
    decreases outcomes.len(),
{
    if outcomes.len() == 0 {
        (seq![], None)
    } else {
        match outcomes[0] {
            Ok(v) => (seq![], Some(v)),
            Err(e) => {
                let rest = supervised(outcomes.drop_first());
                (seq![failure_log(e@)] + rest.0, rest.1)
            },
        }
    }
}

/// A task that fails `n` times and then succeeds with `v`: the supervisor returns
/// `v` after writing exactly `n` log lines, one for each failure, in order.
pub proof fn lemma_returns_after_failures<T>(outcomes: Seq<Result<T, String>>, n: nat, v: T)
    requires
        outcomes.len() == n + 1,
        forall|i: int| 0 <= i < n ==> (#[trigger] outcomes[i]) is Err,
        outcomes[n as int] == Ok::<T, String>(v),
    ensures
        supervised(outcomes).1 == Some(v),
        supervised(outcomes).0.len() == n,
        forall|i: int|
            0 <= i < n ==> #[trigger] supervised(outcomes).0[i] == failure_log(
                outcomes[i]->Err_0@,
            ),
    decreases n,
{
    if n > 0 {
        let rest = outcomes.drop_first();
        assert forall|i: int| 0 <= i < n - 1 implies (#[trigger] rest[i]) is Err by {
            assert(rest[i] == outcomes[i + 1]);
        }
        assert(rest[n - 1] == outcomes[n as int]);
        lemma_returns_after_failures(rest, (n - 1) as nat, v);
        assert(outcomes[0] is Err);
        assert forall|i: int| 0 <= i < n implies #[trigger] supervised(outcomes).0[i]
            == failure_log(outcomes[i]->Err_0@) by {
            if i > 0 {
                assert(rest[i - 1] == outcomes[i]);
            }
        }
    }
}

} // verus!
