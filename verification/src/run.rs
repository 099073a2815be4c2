use vstd::prelude::*;

verus! {

/// How many status checks a single turn may spend on one run before it
/// gives up waiting.
pub const MAX_STATUS_CHECKS: usize = 5;

/// Seconds to wait before each status check: a fixed interval, no backoff.
pub const POLL_INTERVAL_SECS: u64 = 2;

/// Status of a remote run, as the assistant service reports it on each
/// status check. `Queued`, `InProgress` and `Cancelling` mean the run is
/// still moving; every other status ends the polling loop at once.
#[derive(Clone, Copy, Debug, PartialEq, Eq, Structural)]
pub enum RunStatus {
    Queued,
    InProgress,
    Cancelling,
    RequiresAction,
    Cancelled,
    Failed,
    Expired,
    Completed,
}

/// What one conversation turn learned about its run by the time polling
/// stopped. `TimedOut` means the check budget ran out while the run was
/// still moving: the remote run keeps executing, the turn stops waiting.
#[derive(Clone, Copy, Debug, PartialEq, Eq, Structural)]
pub enum RunOutcome {
    Completed,
    RequiresAction,
    Cancelled,
    Failed,
    Expired,
    TimedOut,
}

/// A status on which polling stops: the run has reached a state from which
/// it makes no further progress on its own.
pub open spec fn is_settled(s: RunStatus) -> bool {
    !(s is Queued || s is InProgress || s is Cancelling)
}

/// Runtime test for `is_settled`.
pub fn is_settled_status(s: RunStatus) -> (b: bool)
    ensures
        b == is_settled(s),
{
    match s {
        RunStatus::Queued | RunStatus::InProgress | RunStatus::Cancelling => false,
        _ => true,
    }
}

/// The outcome a settled status stands for. A status that is not settled
/// never becomes an outcome by itself; such a status is mapped to
/// `TimedOut` only because this function must be total.
pub open spec fn settled_outcome(s: RunStatus) -> RunOutcome
    recommends
        is_settled(s),
{
    match s {
        RunStatus::RequiresAction => RunOutcome::RequiresAction,
        RunStatus::Cancelled => RunOutcome::Cancelled,
        RunStatus::Failed => RunOutcome::Failed,
        RunStatus::Expired => RunOutcome::Expired,
        RunStatus::Completed => RunOutcome::Completed,
        _ => RunOutcome::TimedOut,
    }
}

/// The outcome of polling a run whose status at the successive checks
/// would be `statuses`: the first settled status decides; a trace that
/// never settles (in particular an empty one) is a timeout.
pub open spec fn poll_outcome(statuses: Seq<RunStatus>) -> RunOutcome
    decreases statuses.len(),
{
    if statuses.len() == 0 {
        RunOutcome::TimedOut
    } else if is_settled(statuses[0]) {
        settled_outcome(statuses[0])
    } else {
        poll_outcome(statuses.drop_first())
    }
}

/// How many status checks polling over `statuses` spends: one per status
/// up to and including the first settled one.
pub open spec fn checks_spent(statuses: Seq<RunStatus>) -> int
    decreases statuses.len(),
{
    if statuses.len() == 0 {
        0
    } else if is_settled(statuses[0]) {
        1
    } else {
        1 + checks_spent(statuses.drop_first())
    }
}

/// Polling never spends more checks than the trace offers.
pub proof fn lemma_checks_spent_bounded(statuses: Seq<RunStatus>)
    ensures
        0 <= checks_spent(statuses) <= statuses.len(),
    decreases statuses.len(),
{
    if statuses.len() > 0 && !is_settled(statuses[0]) {
        lemma_checks_spent_bounded(statuses.drop_first());
    }
}

/// A run that is still moving at every one of its checks yields the
/// timeout outcome, not an error, after spending the whole trace.
pub proof fn lemma_unsettled_trace_times_out(statuses: Seq<RunStatus>)
    requires
        forall|j: int| 0 <= j < statuses.len() ==> !is_settled(statuses[j]),
    ensures
        poll_outcome(statuses) == RunOutcome::TimedOut,
        checks_spent(statuses) == statuses.len(),
    decreases statuses.len(),
{
    if statuses.len() > 0 {
        assert(forall|j: int|
            0 <= j < statuses.drop_first().len() ==> statuses.drop_first()[j] == statuses[j + 1]);
        lemma_unsettled_trace_times_out(statuses.drop_first());
    }
}

/// Skipping a prefix of checks that all came back unsettled changes
/// neither the outcome nor how the remaining checks are counted.
proof fn lemma_poll_skip_unsettled(statuses: Seq<RunStatus>, i: int)
    requires
        0 <= i <= statuses.len(),
        forall|j: int| 0 <= j < i ==> !is_settled(statuses[j]),
    ensures
        poll_outcome(statuses) == poll_outcome(statuses.skip(i)),
        checks_spent(statuses) == i + checks_spent(statuses.skip(i)),
    decreases i,
{
    if i == 0 {
        assert(statuses.skip(0) =~= statuses);
    } else {
        assert(statuses.drop_first() =~= statuses.skip(1));
        assert(forall|j: int|
            0 <= j < statuses.skip(1).len() ==> statuses.skip(1)[j] == statuses[j + 1]);
        lemma_poll_skip_unsettled(statuses.skip(1), i - 1);
        assert(statuses.skip(1).skip(i - 1) =~= statuses.skip(i));
    }
}

/// The polling half of one conversation turn, driven one status check at
/// a time by whoever talks to the remote service: before each check the
/// caller waits `POLL_INTERVAL_SECS`, fetches the run's status, and hands
/// it to `observe`, until `observe` settles on an outcome. The budget of
/// `MAX_STATUS_CHECKS` checks makes the loop finite.
pub struct RunPoller {
    /// Status checks consumed so far; never more than `MAX_STATUS_CHECKS`.
    pub checks_made: usize,
}

impl RunPoller {
    /// A poller for a freshly submitted run: no checks spent yet.
    pub fn new() -> (p: Self)
        ensures
            p.checks_made == 0,
    {
        RunPoller { checks_made: 0 }
    }

    /// Feed the poller the status one check returned. A settled status
    /// decides the outcome at once; an unsettled one asks the caller to
    /// keep polling (`None`) until the last check of the budget, which
    /// turns an unsettled run into `TimedOut`.
    pub fn observe(&mut self, s: RunStatus) -> (r: Option<RunOutcome>)
        requires
            old(self).checks_made < MAX_STATUS_CHECKS,
        ensures
            final(self).checks_made == old(self).checks_made + 1,
            is_settled(s) ==> r == Some(settled_outcome(s)),
            !is_settled(s) && final(self).checks_made < MAX_STATUS_CHECKS ==> r is None,
            !is_settled(s) && final(self).checks_made == MAX_STATUS_CHECKS ==> r == Some(
                RunOutcome::TimedOut,
            ),
    {
        self.checks_made = self.checks_made + 1;
        if is_settled_status(s) {
            Some(outcome_of_status(s))
        } else if self.checks_made == MAX_STATUS_CHECKS {
            Some(RunOutcome::TimedOut)
        } else {
            None
        }
    }
}

/// Runtime counterpart of `settled_outcome`, for statuses that end the
/// polling loop.
pub fn outcome_of_status(s: RunStatus) -> (o: RunOutcome)
    requires
        is_settled(s),
    ensures
        o == settled_outcome(s),
{
    match s {
        RunStatus::RequiresAction => RunOutcome::RequiresAction,
        RunStatus::Cancelled => RunOutcome::Cancelled,
        RunStatus::Failed => RunOutcome::Failed,
        RunStatus::Expired => RunOutcome::Expired,
        _ => RunOutcome::Completed,
    }
}

/// The fixed notice shown for an outcome that produced no reply of its
/// own. `Completed` has no notice (its reply comes from the thread's
/// last message) and is mapped to the empty sequence only because this
/// function must be total.
pub open spec fn notice_text(o: RunOutcome) -> Seq<char> {
    match o {
        RunOutcome::Completed => Seq::empty(),
        RunOutcome::RequiresAction => "Action required for OpenAI assistant"@,
        RunOutcome::Cancelled => "Run is cancelled"@,
        RunOutcome::Failed => "Run is failed"@,
        RunOutcome::Expired => "Run is expired"@,
        RunOutcome::TimedOut => "Timeout"@,
    }
}

/// The text a turn answers with for its outcome, unless the run
/// completed: a completed run's answer is read off the thread instead.
pub fn outcome_notice(o: RunOutcome) -> (r: Option<&'static str>)
    ensures
        (o is Completed) <==> (r is None),
        !(o is Completed) ==> (r matches Some(s) && s@ == notice_text(o)),
{
    match o {
        RunOutcome::Completed => None,
        RunOutcome::RequiresAction => Some("Action required for OpenAI assistant"),
        RunOutcome::Cancelled => Some("Run is cancelled"),
        RunOutcome::Failed => Some("Run is failed"),
        RunOutcome::Expired => Some("Run is expired"),
        RunOutcome::TimedOut => Some("Timeout"),
    }
}

/// Every outcome that carries a notice carries a fixed, non-empty one,
/// and no two outcomes share a notice.
pub proof fn lemma_notices_distinct(a: RunOutcome, b: RunOutcome)
    requires
        !(a is Completed),
        !(b is Completed),
        a != b,
    ensures
        notice_text(a).len() > 0,
        notice_text(a) != notice_text(b),
{
    reveal_strlit("Action required for OpenAI assistant");
    reveal_strlit("Run is cancelled");
    reveal_strlit("Run is failed");
    reveal_strlit("Run is expired");
    reveal_strlit("Timeout");
    assert("Action required for OpenAI assistant"@.len() == 36);
    assert("Run is cancelled"@.len() == 16);
    assert("Run is failed"@.len() == 13);
    assert("Run is expired"@.len() == 14);
    assert("Timeout"@.len() == 7);
}

/// Poll a run whose status at each of the budgeted check instants is
/// given by `statuses`: the turn's whole polling loop in one call.
/// Returns the outcome and the number of checks spent reaching it.
pub fn drive_polling(statuses: &Vec<RunStatus>) -> (r: (RunOutcome, usize))
    requires
        statuses@.len() == MAX_STATUS_CHECKS,
    ensures
        r.0 == poll_outcome(statuses@),
        r.1 == checks_spent(statuses@),
        r.1 <= MAX_STATUS_CHECKS,
{
    let mut poller = RunPoller::new();
    let mut i: usize = 0;
    while i < MAX_STATUS_CHECKS
        invariant
            statuses@.len() == MAX_STATUS_CHECKS,
            i == poller.checks_made,
            i <= MAX_STATUS_CHECKS,
            forall|j: int| 0 <= j < i ==> !is_settled(statuses@[j]),
        decreases MAX_STATUS_CHECKS - i,
    {
        let s = statuses[i];
        let r = poller.observe(s);
        proof {
            lemma_poll_skip_unsettled(statuses@, i as int);
            lemma_checks_spent_bounded(statuses@.skip(i as int));
        }
        i = i + 1;
        match r {
            Some(o) => {
                if !is_settled_status(s) {
                    proof {
                        lemma_unsettled_trace_times_out(statuses@);
                    }
                }
                return (o, i);
            },
            None => {},
        }
    }
    proof {
        lemma_unsettled_trace_times_out(statuses@);
    }
    (RunOutcome::TimedOut, MAX_STATUS_CHECKS)
}

} // verus!
