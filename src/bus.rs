//! One transaction on a shared bus: select, operations, flush, deselect.
//!
//! The runner that owns the bus and the select line performs each action the
//! transaction hands out and passes back its outcome. Cleanup (flush, then
//! deselect) follows every path, also after a failed operation, and the
//! first error is what the transaction reports.
use vstd::prelude::*;
use crate::err::{CsError, DeviceError};

verus! {

/// The outcome of one action.
pub type Outcome<E> = Result<(), DeviceError<E, CsError>>;

/// Where a transaction stands.
#[derive(Copy, Clone, Debug, PartialEq, Eq, Structural)]
pub enum TxnPhase {
    /// The select line is being asserted.
    Selecting,
    /// Operation `i` is running.
    Running(usize),
    /// The bus is being flushed.
    Flushing,
    /// The select line is being deasserted.
    Deselecting,
    /// The result has been handed out; the error moved with it.
    Finished,
}

/// What the runner does next.
#[derive(Debug, PartialEq, Eq)]
pub enum TxnAction<E> {
    /// Assert the select line.
    AssertSelect,
    /// Run operation `i` of the list.
    RunOp(usize),
    /// Flush the bus.
    Flush,
    /// Deassert the select line.
    DeassertSelect,
    /// Return this result to the caller.
    Finish(Outcome<E>),
}

/// A transaction over a list of operations.
pub struct Transaction<E> {
    /// The number of operations.
    pub n_ops: usize,
    /// Where the transaction stands.
    pub phase: TxnPhase,
    /// The first error so far.
    pub error: Option<DeviceError<E, CsError>>,
}

/// The first error of `first` and then `next`.
pub open spec fn first_error<E>(
    first: Option<DeviceError<E, CsError>>,
    next: Outcome<E>,
) -> Option<DeviceError<E, CsError>> {
    match first {
        Some(e) => Some(e),
        None => match next {
            Ok(()) => None,
            Err(e) => Some(e),
        },
    }
}

/// The result that a transaction reports for its first error.
pub open spec fn result_of<E>(error: Option<DeviceError<E, CsError>>) -> Outcome<E> {
    match error {
        Some(e) => Err(e),
        None => Ok(()),
    }
}

/// The state after operation `i`'s successor is chosen: the next operation, or the flush.
pub open spec fn after_op<E>(n_ops: usize, i: int) -> (TxnPhase, TxnAction<E>) {
    if i + 1 < n_ops {
        (TxnPhase::Running((i + 1) as usize), TxnAction::RunOp((i + 1) as usize))
    } else {
        (TxnPhase::Flushing, TxnAction::Flush)
    }
}

impl<E> Transaction<E> {
    /// The transaction that the runner starts with, before any outcome.
    pub open spec fn initial(n_ops: usize) -> Self {
        Transaction { n_ops, phase: TxnPhase::Selecting, error: None }
    }

    /// One step: the state and the action that follow the outcome of the last action.
    pub open spec fn next(self, outcome: Outcome<E>) -> (Self, TxnAction<E>) {
        match self.phase {
            TxnPhase::Selecting => match outcome {
                Ok(()) => if self.n_ops > 0 {
                    (Transaction { phase: TxnPhase::Running(0), ..self }, TxnAction::RunOp(0))
                } else {
                    (Transaction { phase: TxnPhase::Flushing, ..self }, TxnAction::Flush)
                },
                Err(e) => (
                    Transaction { phase: TxnPhase::Flushing, error: Some(e), ..self },
                    TxnAction::Flush,
                ),
            },
            TxnPhase::Running(i) => match outcome {
                Ok(()) => {
                    let (p, a) = after_op::<E>(self.n_ops, i as int);
                    (Transaction { phase: p, ..self }, a)
                },
                Err(e) => (
                    Transaction { phase: TxnPhase::Flushing, error: Some(e), ..self },
                    TxnAction::Flush,
                ),
            },
            TxnPhase::Flushing => (
                Transaction {
                    phase: TxnPhase::Deselecting,
                    error: first_error(self.error, outcome),
                    ..self
                },
                TxnAction::DeassertSelect,
            ),
            _ => {
                let err = first_error(self.error, outcome);
                (
                    Transaction { phase: TxnPhase::Finished, error: None, ..self },
                    TxnAction::Finish(result_of(err)),
                )
            },
        }
    }

    /// Whether the state can be reached from the start.
    pub open spec fn wf(self) -> bool {
        match self.phase {
            TxnPhase::Selecting => self.error is None,
            TxnPhase::Running(i) => i < self.n_ops && self.error is None,
            _ => true,
        }
    }

    /// Starts a transaction over `n_ops` operations: the first action asserts
    /// the select line.
    pub fn begin(n_ops: usize) -> (r: (Self, TxnAction<E>))
        ensures
            r.0 == Self::initial(n_ops),
            r.1 == TxnAction::<E>::AssertSelect,
            r.0.wf(),
    {
        (Transaction { n_ops, phase: TxnPhase::Selecting, error: None }, TxnAction::AssertSelect)
    }

    /// Takes the outcome of the last action and gives the next action.
    pub fn step(self, outcome: Outcome<E>) -> (r: (Self, TxnAction<E>))
        requires
            self.wf(),
            self.phase != TxnPhase::Finished,
        ensures
            r == self.next(outcome),
            r.0.wf(),
    {
        match self.phase {
            TxnPhase::Selecting => match outcome {
                Ok(()) => if self.n_ops > 0 {
                    (Transaction { phase: TxnPhase::Running(0), ..self }, TxnAction::RunOp(0))
                } else {
                    (Transaction { phase: TxnPhase::Flushing, ..self }, TxnAction::Flush)
                },
                Err(e) => (
                    Transaction { phase: TxnPhase::Flushing, error: Some(e), ..self },
                    TxnAction::Flush,
                ),
            },
            TxnPhase::Running(i) => match outcome {
                Ok(()) => if i + 1 < self.n_ops {
                    (
                        Transaction { phase: TxnPhase::Running(i + 1), ..self },
                        TxnAction::RunOp(i + 1),
                    )
                } else {
                    (Transaction { phase: TxnPhase::Flushing, ..self }, TxnAction::Flush)
                },
                Err(e) => (
                    Transaction { phase: TxnPhase::Flushing, error: Some(e), ..self },
                    TxnAction::Flush,
                ),
            },
            TxnPhase::Flushing => {
                let error = match self.error {
                    Some(e) => Some(e),
                    None => match outcome {
                        Ok(()) => None,
                        Err(e) => Some(e),
                    },
                };
                (
                    Transaction { phase: TxnPhase::Deselecting, error, ..self },
                    TxnAction::DeassertSelect,
                )
            },
            _ => {
                let error = match self.error {
                    Some(e) => Some(e),
                    None => match outcome {
                        Ok(()) => None,
                        Err(e) => Some(e),
                    },
                };
                let result = match error {
                    Some(e) => Err(e),
                    None => Ok(()),
                };
                (
                    Transaction { phase: TxnPhase::Finished, error: None, ..self },
                    TxnAction::Finish(result),
                )
            },
        }
    }
}

/// The actions that a transaction hands out for a sequence of outcomes,
/// up to and including its result.
pub open spec fn trace<E>(t: Transaction<E>, outcomes: Seq<Outcome<E>>) -> Seq<TxnAction<E>>
    decreases outcomes.len(),
{
    if outcomes.len() == 0 || t.phase == TxnPhase::Finished {
        seq![]
    } else {
        let (t2, a) = t.next(outcomes[0]);
        seq![a] + trace(t2, outcomes.drop_first())
    }
}

/// `n` successful outcomes.
pub open spec fn successes<E>(n: nat) -> Seq<Outcome<E>> {
    Seq::new(n, |i: int| Ok(()))
}

/// The operations `from`, `from + 1`, ... , `from + n - 1`, run in order.
pub open spec fn runs<E>(from: int, n: nat) -> Seq<TxnAction<E>> {
    Seq::new(n, |i: int| TxnAction::RunOp((from + i) as usize))
}

proof fn lemma_failure_from<E>(
    n_ops: usize,
    i: usize,
    k: usize,
    e: DeviceError<E, CsError>,
    flush: Outcome<E>,
    deselect: Outcome<E>,
)
    requires
        i <= k < n_ops,
    ensures
        trace(
            Transaction { n_ops, phase: TxnPhase::Running(i), error: None },
            successes::<E>((k - i) as nat) + seq![Err(e), flush, deselect],
        ) == runs::<E>(i + 1, (k - i) as nat) + seq![
            TxnAction::Flush,
            TxnAction::DeassertSelect,
            TxnAction::Finish(Err(e)),
        ],
    decreases k - i,
{
    let t = Transaction::<E> { n_ops, phase: TxnPhase::Running(i), error: None };
    let outs = successes::<E>((k - i) as nat) + seq![Err(e), flush, deselect];
    let tail = seq![TxnAction::Flush, TxnAction::DeassertSelect, TxnAction::Finish(Err(e))];
    if i == k {
        assert(outs =~= seq![Err(e), flush, deselect]);
        let (t1, a1) = t.next(outs[0]);
        let (t2, a2) = t1.next(outs[1]);
        let (t3, a3) = t2.next(outs[2]);
        assert(outs.drop_first().drop_first().drop_first() =~= seq![]);
        assert(trace(t3, outs.drop_first().drop_first().drop_first()) =~= seq![]);
        assert(trace(t2, outs.drop_first().drop_first()) =~= seq![a3]);
        assert(trace(t1, outs.drop_first()) =~= seq![a2, a3]);
        assert(trace(t, outs) =~= seq![a1, a2, a3]);
        assert(runs::<E>(i + 1, 0) =~= seq![]);
        assert(runs::<E>(i + 1, 0) + tail =~= tail);
    } else {
        lemma_failure_from(n_ops, (i + 1) as usize, k, e, flush, deselect);
        let t1 = Transaction::<E> { n_ops, phase: TxnPhase::Running((i + 1) as usize), error: None };
        assert(outs[0] == Ok::<(), DeviceError<E, CsError>>(()));
        assert(t.next(outs[0]) == (t1, TxnAction::<E>::RunOp((i + 1) as usize)));
        assert(outs.drop_first() =~= successes::<E>((k - (i + 1)) as nat) + seq![
            Err(e),
            flush,
            deselect,
        ]);
        assert(runs::<E>(i + 1, (k - i) as nat) =~= seq![TxnAction::<E>::RunOp((i + 1) as usize)]
            + runs::<E>(i + 2, (k - (i + 1)) as nat));
        assert(trace(t, outs) =~= seq![TxnAction::<E>::RunOp((i + 1) as usize)] + trace(
            t1,
            outs.drop_first(),
        ));
    }
}

/// Operations `from` to `from + k - 1`, then the flush, the deassertion and
/// the result `r`.
pub open spec fn ops_then_cleanup<E>(from: int, k: nat, r: Outcome<E>) -> Seq<TxnAction<E>> {
    runs::<E>(from, k) + seq![TxnAction::Flush, TxnAction::DeassertSelect, TxnAction::Finish(r)]
}

proof fn lemma_cleanup<E>(t: Transaction<E>, outcomes: Seq<Outcome<E>>)
    requires
        t.phase == TxnPhase::Flushing,
        outcomes.len() >= 2,
    ensures
        trace(t, outcomes) == seq![
            TxnAction::DeassertSelect,
            TxnAction::Finish(
                result_of(first_error(first_error(t.error, outcomes[0]), outcomes[1])),
            ),
        ],
{
    reveal_with_fuel(trace, 3);
    let (t1, a1) = t.next(outcomes[0]);
    let (t2, a2) = t1.next(outcomes[1]);
    assert(trace(t2, outcomes.drop_first().drop_first()) =~= seq![]);
    assert(trace(t, outcomes) =~= seq![a1, a2]);
}

proof fn lemma_ops_then_cleanup<E>(t: Transaction<E>, i: usize, outcomes: Seq<Outcome<E>>)
    requires
        t.phase == TxnPhase::Running(i),
        i < t.n_ops,
        t.error is None,
        outcomes.len() >= t.n_ops - i + 2,
    ensures
        exists|k: nat, r: Outcome<E>|
            k < t.n_ops - i && trace(t, outcomes) == #[trigger] ops_then_cleanup::<E>(i + 1, k, r),
    decreases t.n_ops - i,
{
    let (t1, a1) = t.next(outcomes[0]);
    let rest = outcomes.drop_first();
    assert(trace(t, outcomes) == seq![a1] + trace(t1, rest));
    if t1.phase == TxnPhase::Flushing {
        lemma_cleanup(t1, rest);
        let r = result_of(first_error(first_error(t1.error, rest[0]), rest[1]));
        assert(runs::<E>(i + 1, 0) =~= seq![]);
        assert(trace(t, outcomes) =~= ops_then_cleanup::<E>(i + 1, 0, r));
    } else {
        assert(t1.phase == TxnPhase::Running((i + 1) as usize));
        lemma_ops_then_cleanup(t1, (i + 1) as usize, rest);
        let (k, r) = choose|k: nat, r: Outcome<E>|
            k < t1.n_ops - (i + 1) && trace(t1, rest) == #[trigger] ops_then_cleanup::<E>(i + 2, k, r);
        assert(runs::<E>(i + 1, k + 1) =~= seq![TxnAction::<E>::RunOp((i + 1) as usize)] + runs::<
            E,
        >(i + 2, k));
        assert(trace(t, outcomes) =~= ops_then_cleanup::<E>(i + 1, k + 1, r));
    }
}

/// Whatever the outcomes of its actions, a transaction over `n_ops`
/// operations that runs to its end asserts the select line, runs a prefix of
/// its operations in order, flushes the bus once, deasserts the select line
/// once, and then hands out its result: no operation runs outside the
/// select window, and the select line is always released.
pub proof fn lemma_every_run_is_bracketed<E>(n_ops: usize, outcomes: Seq<Outcome<E>>)
    requires
        outcomes.len() >= n_ops + 3,
    ensures
        exists|k: nat, r: Outcome<E>|
            k <= n_ops && trace(Transaction::<E>::initial(n_ops), outcomes)
                == #[trigger] ops_then_cleanup::<E>(0, k, r),
{
    let t = Transaction::<E>::initial(n_ops);
    let (t1, a1) = t.next(outcomes[0]);
    let rest = outcomes.drop_first();
    assert(trace(t, outcomes) == seq![a1] + trace(t1, rest));
    if t1.phase == TxnPhase::Flushing {
        lemma_cleanup(t1, rest);
        let r = result_of(first_error(first_error(t1.error, rest[0]), rest[1]));
        assert(runs::<E>(0, 0) =~= seq![]);
        assert(trace(t, outcomes) =~= ops_then_cleanup::<E>(0, 0, r));
    } else {
        lemma_ops_then_cleanup(t1, 0, rest);
        let (k, r) = choose|k: nat, r: Outcome<E>|
            k < t1.n_ops && trace(t1, rest) == #[trigger] ops_then_cleanup::<E>(1, k, r);
        assert(runs::<E>(0, k + 1) =~= seq![TxnAction::<E>::RunOp(0)] + runs::<E>(1, k));
        assert(trace(t, outcomes) =~= ops_then_cleanup::<E>(0, k + 1, r));
    }
}

/// A transaction over `n_ops` operations whose operation `k` fails (after
/// the select line was asserted and operations `0` to `k - 1` succeeded)
/// runs no further operation, flushes the bus exactly once, deasserts the
/// select line, and reports the operation's error, whatever the flush and
/// the deassertion return.
pub proof fn lemma_failed_op_still_cleans_up<E>(
    n_ops: usize,
    k: usize,
    e: DeviceError<E, CsError>,
    flush: Outcome<E>,
    deselect: Outcome<E>,
)
    requires
        k < n_ops,
    ensures
        trace(
            Transaction::<E>::initial(n_ops),
            seq![Ok(())] + successes::<E>(k as nat) + seq![Err(e), flush, deselect],
        ) == runs::<E>(0, (k + 1) as nat) + seq![
            TxnAction::Flush,
            TxnAction::DeassertSelect,
            TxnAction::Finish(Err(e)),
        ],
{
    let t = Transaction::<E>::initial(n_ops);
    let outs = seq![Ok(())] + successes::<E>(k as nat) + seq![Err(e), flush, deselect];
    lemma_failure_from(n_ops, 0, k, e, flush, deselect);
    let t1 = Transaction::<E> { n_ops, phase: TxnPhase::Running(0), error: None };
    assert(t.next(outs[0]) == (t1, TxnAction::<E>::RunOp(0)));
    assert(outs.drop_first() =~= successes::<E>(k as nat) + seq![Err(e), flush, deselect]);
    assert(runs::<E>(0, (k + 1) as nat) =~= seq![TxnAction::<E>::RunOp(0)] + runs::<E>(1, k as nat));
}

} // verus!
