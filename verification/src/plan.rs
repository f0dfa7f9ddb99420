//! Running a plan of requests: they are sent one at a time, in order, each
//! after the one before succeeded. The first `required` requests must
//! succeed: a failure among them aborts the run. A failure of a later
//! request ends the run with that failure; when the last request succeeds,
//! the run ends with its outcome.
use vstd::prelude::*;

verus! {

/// Where a run of a plan stands.
#[derive(Debug, Clone, Copy, PartialEq, Eq)]
pub enum PlanState {
    /// The request of this index was sent; its answer is awaited.
    Sending(usize),
    /// The run ended with the outcome of the last request answered.
    Returned,
    /// A required request failed; the run aborted.
    Aborted,
}

/// What to do next.
#[derive(Debug, Clone, Copy, PartialEq, Eq)]
pub enum PlanCommand {
    /// Send the request of this index.
    Send(usize),
    /// End with the outcome of the request just answered.
    ReturnLast,
    /// A required request failed: end without sending the rest, and
    /// without an outcome.
    Abort,
}

/// A run of a plan of `len` requests, of which the first `required` must
/// succeed.
#[derive(Debug, Clone, Copy, PartialEq, Eq)]
pub struct PlanRun {
    pub state: PlanState,
    pub len: usize,
    pub required: usize,
}

/// One step of a run: the run after the request in flight succeeded (`ok`)
/// or failed, and the command to carry out.
pub open spec fn spec_plan_step(run: PlanRun, ok: bool) -> (PlanRun, PlanCommand) {
    match run.state {
        PlanState::Sending(i) => if !ok {
            if i < run.required {
                (PlanRun { state: PlanState::Aborted, ..run }, PlanCommand::Abort)
            } else {
                (PlanRun { state: PlanState::Returned, ..run }, PlanCommand::ReturnLast)
            }
        } else if i + 1 < run.len {
            (PlanRun { state: PlanState::Sending((i + 1) as usize), ..run }, PlanCommand::Send((i + 1) as usize))
        } else {
            (PlanRun { state: PlanState::Returned, ..run }, PlanCommand::ReturnLast)
        },
        PlanState::Returned => (run, PlanCommand::ReturnLast),
        PlanState::Aborted => (run, PlanCommand::Abort),
    }
}

/// The run after the answers `oks`, one per request sent.
pub open spec fn spec_plan_run(run: PlanRun, oks: Seq<bool>) -> PlanRun
    decreases oks.len(),
{
    if oks.len() == 0 {
        run
    } else {
        spec_plan_run(spec_plan_step(run, oks[0]).0, oks.drop_first())
    }
}

/// The run of a plan from its first request.
pub open spec fn spec_plan_start(len: usize, required: usize) -> PlanRun {
    PlanRun { state: PlanState::Sending(0), len, required }
}

impl PlanRun {
    /// A run of a plan of `len` requests, of which the first `required`
    /// must succeed; it begins with the first request.
    pub fn start(len: usize, required: usize) -> (r: (PlanRun, PlanCommand))
        requires
            required < len,
        ensures
            r.0 == spec_plan_start(len, required),
            r.1 == PlanCommand::Send(0),
    {
        (PlanRun { state: PlanState::Sending(0), len, required }, PlanCommand::Send(0))
    }

    /// The run after the request in flight succeeded (`ok`) or failed, and
    /// the command to carry out next.
    pub fn step(self, ok: bool) -> (r: (PlanRun, PlanCommand))
        ensures
            r == spec_plan_step(self, ok),
    {
        match self.state {
            PlanState::Sending(i) => if !ok {
                if i < self.required {
                    (PlanRun { state: PlanState::Aborted, ..self }, PlanCommand::Abort)
                } else {
                    (PlanRun { state: PlanState::Returned, ..self }, PlanCommand::ReturnLast)
                }
            } else if i < self.len && i + 1 < self.len {
                (PlanRun { state: PlanState::Sending(i + 1), ..self }, PlanCommand::Send(i + 1))
            } else {
                (PlanRun { state: PlanState::Returned, ..self }, PlanCommand::ReturnLast)
            },
            PlanState::Returned => (self, PlanCommand::ReturnLast),
            PlanState::Aborted => (self, PlanCommand::Abort),
        }
    }
}

/// A success of a request that is not the last sends the next request; a
/// success of the last ends the run with its outcome.
pub proof fn lemma_plan_success(run: PlanRun, i: usize)
    requires
        run.state == PlanState::Sending(i),
    ensures
        i + 1 < run.len ==> spec_plan_step(run, true) == (
            PlanRun { state: PlanState::Sending((i + 1) as usize), len: run.len, required: run.required },
            PlanCommand::Send((i + 1) as usize),
        ),
        i + 1 >= run.len ==> spec_plan_step(run, true) == (
            PlanRun { state: PlanState::Returned, len: run.len, required: run.required },
            PlanCommand::ReturnLast,
        ),
{
}

/// A failure of a required request aborts the run; a failure of any other
/// request ends the run with that failure.
pub proof fn lemma_plan_failure(run: PlanRun, i: usize)
    requires
        run.state == PlanState::Sending(i),
    ensures
        i < run.required ==> spec_plan_step(run, false) == (
            PlanRun { state: PlanState::Aborted, len: run.len, required: run.required },
            PlanCommand::Abort,
        ),
        i >= run.required ==> spec_plan_step(run, false) == (
            PlanRun { state: PlanState::Returned, len: run.len, required: run.required },
            PlanCommand::ReturnLast,
        ),
{
}

/// What each command answers: a request is sent only after the one before
/// it succeeded, and only if the plan has it; a run aborts only when a
/// required request failed; it ends with an outcome only when a request
/// that is not required failed, or when the last request succeeded.
pub proof fn lemma_plan_commands(run: PlanRun, ok: bool)
    ensures
        spec_plan_step(run, ok).1 matches PlanCommand::Send(j) ==> {
            &&& run.state matches PlanState::Sending(i) && j == i + 1
            &&& ok
            &&& j < run.len
        },
        spec_plan_step(run, ok).1 == PlanCommand::Abort ==> {
            ||| run.state == PlanState::Aborted
            ||| run.state matches PlanState::Sending(i) && i < run.required && !ok
        },
        spec_plan_step(run, ok).1 == PlanCommand::ReturnLast ==> {
            ||| run.state == PlanState::Returned
            ||| run.state matches PlanState::Sending(i) && !ok && i >= run.required
            ||| run.state matches PlanState::Sending(i) && ok && i + 1 >= run.len
        },
{
}

/// A run none of whose requests is required never aborts.
pub proof fn lemma_plan_never_aborts_unrequired(run: PlanRun, oks: Seq<bool>, ok: bool)
    requires
        run.required == 0,
        run.state != PlanState::Aborted,
    ensures
        spec_plan_run(run, oks).state != PlanState::Aborted,
        spec_plan_step(spec_plan_run(run, oks), ok).1 != PlanCommand::Abort,
    decreases oks.len(),
{
    lemma_plan_run_keeps(run, oks);
    if oks.len() > 0 {
        lemma_plan_never_aborts_unrequired(spec_plan_step(run, oks[0]).0, oks.drop_first(), ok);
    }
}

/// After `k` successes, fewer than the plan's requests, the run sends the
/// request of index `k`.
pub proof fn lemma_plan_after_successes(len: usize, required: usize, oks: Seq<bool>)
    requires
        required < len,
        oks.len() < len,
        forall|j: int| 0 <= j < oks.len() ==> oks[j],
    ensures
        spec_plan_run(spec_plan_start(len, required), oks) == (PlanRun {
            state: PlanState::Sending(oks.len() as usize),
            len,
            required,
        }),
{
    lemma_plan_all_succeed_prefix(len, required, oks);
    lemma_plan_run_keeps(spec_plan_start(len, required), oks);
}

/// A run keeps the size of its plan and the number of required requests.
pub proof fn lemma_plan_run_keeps(run: PlanRun, oks: Seq<bool>)
    ensures
        spec_plan_run(run, oks).len == run.len,
        spec_plan_run(run, oks).required == run.required,
    decreases oks.len(),
{
    if oks.len() > 0 {
        lemma_plan_run_keeps(spec_plan_step(run, oks[0]).0, oks.drop_first());
    }
}

/// A run that has ended stays ended.
pub proof fn lemma_plan_end_is_final(run: PlanRun, oks: Seq<bool>)
    requires
        !(run.state is Sending),
    ensures
        spec_plan_run(run, oks) == run,
    decreases oks.len(),
{
    if oks.len() > 0 {
        lemma_plan_end_is_final(spec_plan_step(run, oks[0]).0, oks.drop_first());
    }
}

/// Requests are sent in order, each only after every one before it
/// succeeded: a run that is still sending after the answers `oks` has had
/// only successes, and sends the request whose index is their number.
pub proof fn lemma_plan_in_order(len: usize, required: usize, oks: Seq<bool>)
    requires
        required < len,
        spec_plan_run(spec_plan_start(len, required), oks).state is Sending,
    ensures
        spec_plan_run(spec_plan_start(len, required), oks).state == PlanState::Sending(oks.len() as usize),
        oks.len() < len,
        forall|j: int| 0 <= j < oks.len() ==> oks[j],
    decreases oks.len(),
{
    let start = spec_plan_start(len, required);
    if oks.len() > 0 {
        let prefix = oks.drop_last();
        lemma_plan_run_snoc(start, prefix, oks.last());
        assert(prefix.push(oks.last()) =~= oks);
        let before = spec_plan_run(start, prefix);
        lemma_plan_run_keeps(start, prefix);
        if !(before.state is Sending) {
            lemma_plan_end_is_final(before, seq![oks.last()]);
            assert(spec_plan_run(before, seq![oks.last()]) == spec_plan_step(before, oks.last()).0) by {
                assert(seq![oks.last()].drop_first() =~= Seq::<bool>::empty());
            }
        } else {
            lemma_plan_in_order(len, required, prefix);
            assert(before.state == PlanState::Sending(prefix.len() as usize));
            assert(spec_plan_run(start, oks) == spec_plan_step(before, oks.last()).0);
            assert(oks.last());
            assert forall|j: int| 0 <= j < oks.len() implies oks[j] by {
                if j < prefix.len() {
                    assert(prefix[j] == oks[j]);
                }
            }
        }
    }
}

/// The run after one more answer `ok` is one step of the run before it.
pub proof fn lemma_plan_run_snoc(run: PlanRun, oks: Seq<bool>, ok: bool)
    ensures
        spec_plan_run(run, oks.push(ok)) == spec_plan_step(spec_plan_run(run, oks), ok).0,
    decreases oks.len(),
{
    if oks.len() == 0 {
        assert(oks.push(ok).drop_first() =~= Seq::<bool>::empty());
    } else {
        assert(oks.push(ok).drop_first() =~= oks.drop_first().push(ok));
        lemma_plan_run_snoc(spec_plan_step(run, oks[0]).0, oks.drop_first(), ok);
    }
}

/// At the first failure the run ends: it aborts when the failed request is
/// required, and otherwise ends with that failure; no later request is sent.
pub proof fn lemma_plan_first_failure(len: usize, required: usize, oks: Seq<bool>, k: int)
    requires
        required < len,
        0 <= k < oks.len(),
        !oks[k],
        forall|j: int| 0 <= j < k ==> oks[j],
        k < len,
    ensures
        spec_plan_run(spec_plan_start(len, required), oks).state == (
            if k < required { PlanState::Aborted } else { PlanState::Returned }
        ),
{
    let start = spec_plan_start(len, required);
    assert forall|j: int| 0 <= j < oks.take(k).len() implies oks.take(k)[j] by {
        assert(oks.take(k)[j] == oks[j]);
    }
    lemma_plan_all_succeed_prefix(len, required, oks.take(k));
    let before = spec_plan_run(start, oks.take(k));
    lemma_plan_run_keeps(start, oks.take(k));
    assert(before.state == PlanState::Sending(k as usize));
    lemma_plan_run_snoc(start, oks.take(k), oks[k]);
    assert(oks.take(k).push(oks[k]) =~= oks.take(k + 1));
    let after = spec_plan_run(start, oks.take(k + 1));
    lemma_plan_end_is_final(after, oks.skip(k + 1));
    lemma_plan_run_append(start, oks.take(k + 1), oks.skip(k + 1));
    assert(oks.take(k + 1) + oks.skip(k + 1) =~= oks);
}

/// When every request succeeds, each is sent in turn and the run ends with
/// the outcome of the last.
pub proof fn lemma_plan_all_succeed(len: usize, required: usize, oks: Seq<bool>)
    requires
        required < len,
        oks.len() == len,
        forall|j: int| 0 <= j < oks.len() ==> oks[j],
    ensures
        spec_plan_run(spec_plan_start(len, required), oks).state == PlanState::Returned,
{
    let start = spec_plan_start(len, required);
    let k = len - 1;
    assert forall|j: int| 0 <= j < oks.take(k).len() implies oks.take(k)[j] by {
        assert(oks.take(k)[j] == oks[j]);
    }
    lemma_plan_all_succeed_prefix(len, required, oks.take(k));
    lemma_plan_run_keeps(start, oks.take(k));
    assert(oks[k as int]);
    lemma_plan_run_snoc(start, oks.take(k), oks[k]);
    assert(oks.take(k).push(oks[k]) =~= oks);
}

/// After `k < len` successes the run sends the request of index `k`.
proof fn lemma_plan_all_succeed_prefix(len: usize, required: usize, oks: Seq<bool>)
    requires
        required < len,
        oks.len() < len,
        forall|j: int| 0 <= j < oks.len() ==> oks[j],
    ensures
        spec_plan_run(spec_plan_start(len, required), oks).state == PlanState::Sending(oks.len() as usize),
    decreases oks.len(),
{
    if oks.len() > 0 {
        let prefix = oks.drop_last();
        assert forall|j: int| 0 <= j < prefix.len() implies prefix[j] by {
            assert(prefix[j] == oks[j]);
        }
        lemma_plan_all_succeed_prefix(len, required, prefix);
        lemma_plan_run_snoc(spec_plan_start(len, required), prefix, oks.last());
        assert(oks.last() == oks[oks.len() - 1]);
        assert(oks[oks.len() - 1]);
        assert(prefix.push(oks.last()) =~= oks);
        lemma_plan_run_keeps(spec_plan_start(len, required), prefix);
    }
}

/// Running on two runs of answers in turn is running on both.
proof fn lemma_plan_run_append(run: PlanRun, a: Seq<bool>, b: Seq<bool>)
    ensures
        spec_plan_run(run, a + b) == spec_plan_run(spec_plan_run(run, a), b),
    decreases a.len(),
{
    if a.len() > 0 {
        assert((a + b).drop_first() =~= a.drop_first() + b);
        lemma_plan_run_append(spec_plan_step(run, a[0]).0, a.drop_first(), b);
    } else {
        assert(a + b =~= b);
    }
}

} // verus!
