use vstd::prelude::*;
use crate::variant::{FailureView, ShaderOptimizationError, ShaderOptimizationInput};

verus! {

/// What became of one task: done, or failed with the optimizer's diagnostics.
pub type Outcome = Result<(), ShaderOptimizationError>;

/// Why the worker pool could not run a batch to its end.
#[derive(Clone, Copy, Debug, PartialEq, Eq, Structural)]
pub enum PoolError {
    /// Coordinating the workers with the jobserver failed.
    Io,
    /// A task's callback reported an error to the pool; a batch of this
    /// library never gives it, since its tasks report failures as outcomes.
    Rejected,
    /// A task's callback panicked.
    Panicked,
}

/// Relies on `build_parallel::compile_objects`. Handed a callback that never
/// fails, it calls `f` once on each item, on a pool of threads that the
/// jobserver bounds, and returns the results in the order of the items. It
/// returns an error where the jobserver's I/O fails or a call panics, never
/// a callback's error, since the callback it is handed never fails. It
/// panics itself where no jobserver can be created, and waits forever where the
/// environment grants it no job slot (`NUM_JOBS=0`).
#[verifier::external_body]
fn run_in_parallel<T, R, F>(f: &F, items: &Vec<T>) -> (r: Result<Vec<R>, PoolError>) where
    T: 'static + Sync,
    R: 'static + Sync + Send,
    F: Fn(&T) -> R + Sync + Send,

    requires
        forall|i: int| 0 <= i < items@.len() ==> f.requires((&items@[i],)),
    ensures
        r matches Ok(v) ==> (v@.len() == items@.len() && forall|i: int|
            0 <= i < items@.len() ==> f.ensures((&items@[i],), #[trigger] v@[i])),
        r matches Err(e) ==> e != PoolError::Rejected,
{
    build_parallel::compile_objects(&|x: &T| Ok::<R, ()>(f(x)), items).map_err(
        |e| match e {
            build_parallel::Error::IOError(_) => PoolError::Io,
            build_parallel::Error::BuildError(_) => PoolError::Rejected,
            build_parallel::Error::BuildPanic(_) => PoolError::Panicked,
        },
    )
}

/// Processes every task on the worker pool and returns one outcome per task,
/// in the order of the tasks. A task that fails stops no other: each task's
/// outcome is what `process` gave for that task.
pub fn run_batch<F>(process: &F, items: &Vec<ShaderOptimizationInput>) -> (r: Result<
    Vec<Outcome>,
    PoolError,
>) where F: Fn(&ShaderOptimizationInput) -> Outcome + Sync + Send
    requires
        forall|i: int| 0 <= i < items@.len() ==> process.requires((&items@[i],)),
    ensures
        r matches Ok(v) ==> (v@.len() == items@.len() && forall|i: int|
            0 <= i < items@.len() ==> process.ensures((&items@[i],), #[trigger] v@[i])),
        r matches Err(e) ==> e != PoolError::Rejected,
{
    run_in_parallel(process, items)
}

/// The failures among `v`, in order.
pub open spec fn failures_of(v: Seq<Outcome>) -> Seq<FailureView>
    decreases v.len(),
{
    if v.len() == 0 {
        Seq::empty()
    } else {
        match v.last() {
            Ok(_) => failures_of(v.drop_last()),
            Err(e) => failures_of(v.drop_last()).push(e@),
        }
    }
}

/// What a list of failures holds.
pub open spec fn failures_view(v: Seq<ShaderOptimizationError>) -> Seq<FailureView> {
    v.map_values(|e: ShaderOptimizationError| e@)
}

/// The failures among the outcomes, in order.
pub fn collect_failures(outcomes: &Vec<Outcome>) -> (r: Vec<ShaderOptimizationError>)
    ensures
        failures_view(r@) == failures_of(outcomes@),
{
    let mut out: Vec<ShaderOptimizationError> = Vec::new();
    let mut i: usize = 0;
    while i < outcomes.len()
        invariant
            i <= outcomes.len(),
            failures_view(out@) == failures_of(outcomes@.subrange(0, i as int)),
        decreases outcomes.len() - i,
    {
        let ghost next = outcomes@.subrange(0, i + 1);
        assert(next.drop_last() =~= outcomes@.subrange(0, i as int));
        assert(next.last() == outcomes@[i as int]);
        match &outcomes[i] {
            Ok(_) => {},
            Err(e) => {
                let ghost prev = out@;
                out.push(e.duplicate());
                assert(failures_view(out@) =~= failures_view(prev).push(e@));
            },
        }
        i = i + 1;
    }
    assert(outcomes@.subrange(0, i as int) =~= outcomes@);
    out
}

/// The result of a whole run: success where no task failed, else every
/// failure, in the order of the tasks.
pub fn summarize_outcomes(outcomes: &Vec<Outcome>) -> (r: Result<(), Vec<ShaderOptimizationError>>)
    ensures
        r is Ok <==> failures_of(outcomes@).len() == 0,
        r matches Err(fs) ==> failures_view(fs@) == failures_of(outcomes@),
{
    let failures = collect_failures(outcomes);
    if failures.len() == 0 {
        Ok(())
    } else {
        Err(failures)
    }
}

/// A run succeeds exactly where each of its outcomes is a success.
pub proof fn lemma_run_succeeds_iff_all_succeed(v: Seq<Outcome>)
    ensures
        failures_of(v).len() == 0 <==> forall|i: int| 0 <= i < v.len() ==> (#[trigger] v[i]) is Ok,
    decreases v.len(),
{
    if v.len() > 0 {
        lemma_run_succeeds_iff_all_succeed(v.drop_last());
        if failures_of(v).len() == 0 {
            assert forall|i: int| 0 <= i < v.len() implies (#[trigger] v[i]) is Ok by {
                if i < v.len() - 1 {
                    assert(v.drop_last()[i] == v[i]);
                }
            }
        } else {
            if forall|i: int| 0 <= i < v.len() ==> (#[trigger] v[i]) is Ok {
                assert forall|i: int| 0 <= i < v.drop_last().len() implies (
                #[trigger] v.drop_last()[i]) is Ok by {
                    assert(v.drop_last()[i] == v[i]);
                }
                assert(v[v.len() - 1] is Ok);
            }
        }
    }
}

/// Each failure of a run is the failure of one of its outcomes, and there is
/// one failure for each outcome that failed.
pub proof fn lemma_failures_come_from_outcomes(v: Seq<Outcome>, k: int)
    requires
        0 <= k < failures_of(v).len(),
    ensures
        exists|i: int| 0 <= i < v.len() && (#[trigger] v[i]) is Err && v[i]->Err_0@ == failures_of(v)[k],
    decreases v.len(),
{
    let pre = v.drop_last();
    if k < failures_of(pre).len() {
        lemma_failures_come_from_outcomes(pre, k);
        let i = choose|i: int|
            0 <= i < pre.len() && (#[trigger] pre[i]) is Err && pre[i]->Err_0@ == failures_of(pre)[k];
        assert(v[i] == pre[i]);
    } else {
        assert(v[v.len() - 1] == v.last());
    }
}

} // verus!
