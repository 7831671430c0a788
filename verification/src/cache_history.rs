//! What a `PlayerCache` goes through over its life: the steps that its
//! callers and workers take with it, one after the other, and what is true
//! of every such history.

use crate::cache_state::CacheState;
use crate::clock::{TimeSpan, Timestamp};
use crate::player_cache::{CalcStatus, EnqueueResult};
use vstd::prelude::*;

verus! {

/// One call that changes a cache.
pub enum Step<R> {
    /// `calculate_request` for `id`.
    Request { id: Seq<char>, force: bool, now: Timestamp, tick: Timestamp },
    /// `ping` for `id`.
    Ping { id: Seq<char>, tick: Timestamp },
    /// `take_job` by a worker.
    Take { tick: Timestamp },
    /// `finish_job` for `id`.
    Finish { id: Seq<char>, outcome: Option<R>, now: Timestamp },
}

impl<R> Step<R> {
    /// The step is a request for `id`.
    pub open spec fn requests(self, id: Seq<char>) -> bool {
        self matches Step::Request { id: asked, .. } && asked == id
    }

    /// The step is not a report made before `since`.
    pub open spec fn not_finished_before(self, since: Timestamp) -> bool {
        self matches Step::Finish { now, .. } ==> since.nanos <= now.nanos
    }
}

/// One state of a request may follow another: a request appears as pending;
/// a pending one stays pending under its number, is started, or is given up;
/// one that is being calculated ends as done or in error; one that has ended
/// stays as it is or is asked for again.
pub open spec fn may_follow(before: Option<CalcStatus>, after: Option<CalcStatus>) -> bool {
    match (before, after) {
        (None, None) => true,
        (None, Some(CalcStatus::Pending(_, _))) => true,
        (Some(CalcStatus::Pending(earlier, _)), Some(CalcStatus::Pending(later, _))) => earlier
            == later,
        (Some(CalcStatus::Pending(_, _)), Some(CalcStatus::Calculating)) => true,
        (Some(CalcStatus::Pending(_, _)), Some(CalcStatus::Error)) => true,
        (Some(CalcStatus::Calculating), Some(CalcStatus::Calculating)) => true,
        (Some(CalcStatus::Calculating), Some(CalcStatus::Done)) => true,
        (Some(CalcStatus::Calculating), Some(CalcStatus::Error)) => true,
        (Some(CalcStatus::Done), Some(CalcStatus::Done)) => true,
        (Some(CalcStatus::Done), Some(CalcStatus::Pending(_, _))) => true,
        (Some(CalcStatus::Error), Some(CalcStatus::Error)) => true,
        (Some(CalcStatus::Error), Some(CalcStatus::Pending(_, _))) => true,
        _ => false,
    }
}

impl<R> CacheState<R> {
    /// The state after one step.
    pub open spec fn step(self, step: Step<R>) -> Self {
        match step {
            Step::Request { id, force, now, tick } => self.after_request(id, force, now, tick),
            Step::Ping { id, tick } => self.after_ping(id, tick),
            Step::Take { tick } => self.after_take(tick),
            Step::Finish { id, outcome, now } => self.after_finish(id, outcome, now),
        }
    }

    /// The state after the given steps, taken in their order.
    pub open spec fn run(self, steps: Seq<Step<R>>) -> Self
        decreases steps.len(),
    {
        if steps.len() == 0 {
            self
        } else {
            self.run(steps.drop_last()).step(steps.last())
        }
    }

    /// Every identity in the queue has a state.
    pub open spec fn queue_is_known(self) -> bool {
        forall|i: int|
            0 <= i < self.queue.len() ==> self.status.contains_key(#[trigger] self.queue[i])
    }

    /// A step keeps every identity of the queue known.
    proof fn lemma_step_keeps_queue_known(self, step: Step<R>)
        requires
            self.queue_is_known(),
        ensures
            self.step(step).queue_is_known(),
    {
        let next = self.step(step);
        assert forall|i: int| 0 <= i < next.queue.len() implies next.status.contains_key(
            #[trigger] next.queue[i],
        ) by {
            match step {
                Step::Request { id, force, now, tick } => {
                    if i < self.queue.len() {
                        assert(self.status.contains_key(self.queue[i]));
                    }
                },
                Step::Ping { id, tick } => {
                    assert(self.status.contains_key(self.queue[i]));
                },
                Step::Take { tick } => {
                    if self.queue.len() > 0 {
                        assert(self.status.contains_key(self.queue[i + 1]));
                    }
                },
                Step::Finish { id, outcome, now } => {
                    assert(self.status.contains_key(self.queue[i]));
                },
            }
        }
    }

    /// A cache starts in a well-formed state, whatever results it starts
    /// with.
    pub proof fn lemma_starting_is_wf(
        cooldown: TimeSpan,
        results: Map<Seq<char>, (R, Timestamp)>,
    )
        ensures
            Self::starting(cooldown, results).wf(),
    {
    }

    /// Every history of a cache leads to a well-formed state: steps lead
    /// from a well-formed state to a well-formed state, as long as the
    /// sequence numbers last. The steps give out no more sequence numbers
    /// than there are steps.
    pub proof fn lemma_run_keeps_wf(self, steps: Seq<Step<R>>)
        requires
            self.wf(),
            self.last_queue + steps.len() <= u64::MAX,
        ensures
            self.run(steps).wf(),
            self.last_queue <= self.run(steps).last_queue <= self.last_queue + steps.len(),
        decreases steps.len(),
    {
        if steps.len() > 0 {
            self.lemma_run_keeps_wf(steps.drop_last());
            let before = self.run(steps.drop_last());
            match steps.last() {
                Step::Request { id, force, now, tick } => {
                    before.lemma_request_keeps_wf(id, force, now, tick);
                },
                Step::Ping { id, tick } => {
                    before.lemma_ping_keeps_wf(id, tick);
                },
                Step::Take { tick } => {
                    before.lemma_take_keeps_wf(tick);
                },
                Step::Finish { id, outcome, now } => {
                    before.lemma_finish_keeps_wf(id, outcome, now);
                },
            }
        }
    }

    /// A result enters the cache only for an identity that was done at
    /// least once: an identity that has a result now and had none when the
    /// cache started was done after some number of the steps taken so far.
    pub proof fn lemma_result_means_done_once(
        cooldown: TimeSpan,
        loaded: Map<Seq<char>, (R, Timestamp)>,
        steps: Seq<Step<R>>,
        id: Seq<char>,
    ) -> (k: int)
        requires
            !loaded.contains_key(id),
            Self::starting(cooldown, loaded).run(steps).results.contains_key(id),
        ensures
            0 <= k <= steps.len(),
            Self::starting(cooldown, loaded).run(steps.take(k)).status_of(id) == Some(
                CalcStatus::Done,
            ),
        decreases steps.len(),
    {
        let start = Self::starting(cooldown, loaded);
        assert(steps.len() > 0);
        let before = start.run(steps.drop_last());
        if before.results.contains_key(id) {
            let k = Self::lemma_result_means_done_once(cooldown, loaded, steps.drop_last(), id);
            assert(steps.drop_last().take(k) =~= steps.take(k));
            k
        } else {
            assert(steps.take(steps.len() as int) =~= steps);
            steps.len() as int
        }
    }

    /// An identity that was never the subject of a request has no state and
    /// no result, whatever was done for others: in a cache that started
    /// without a result for `id`, after any steps of which none is a request
    /// for `id`, `id` is unknown to the status table and to the results.
    pub proof fn lemma_never_requested_is_unknown(
        cooldown: TimeSpan,
        loaded: Map<Seq<char>, (R, Timestamp)>,
        steps: Seq<Step<R>>,
        id: Seq<char>,
    )
        requires
            !loaded.contains_key(id),
            forall|i: int| 0 <= i < steps.len() ==> !(#[trigger] steps[i]).requests(id),
        ensures
            Self::starting(cooldown, loaded).run(steps).status_of(id) is None,
            !Self::starting(cooldown, loaded).run(steps).results.contains_key(id),
    {
        Self::lemma_unrequested_stays_out(cooldown, loaded, steps, id);
    }

    /// What `lemma_never_requested_is_unknown` says, together with what
    /// carries it from step to step: the queue holds known identities only.
    proof fn lemma_unrequested_stays_out(
        cooldown: TimeSpan,
        loaded: Map<Seq<char>, (R, Timestamp)>,
        steps: Seq<Step<R>>,
        id: Seq<char>,
    )
        requires
            !loaded.contains_key(id),
            forall|i: int| 0 <= i < steps.len() ==> !(#[trigger] steps[i]).requests(id),
        ensures
            Self::starting(cooldown, loaded).run(steps).status_of(id) is None,
            !Self::starting(cooldown, loaded).run(steps).results.contains_key(id),
            Self::starting(cooldown, loaded).run(steps).queue_is_known(),
        decreases steps.len(),
    {
        let start = Self::starting(cooldown, loaded);
        if steps.len() > 0 {
            let before = start.run(steps.drop_last());
            assert forall|i: int| 0 <= i < steps.drop_last().len() implies !(
            #[trigger] steps.drop_last()[i]).requests(id) by {
                assert(!steps[i].requests(id));
            }
            Self::lemma_unrequested_stays_out(cooldown, loaded, steps.drop_last(), id);
            before.lemma_step_keeps_queue_known(steps.last());
            assert(!steps[steps.len() - 1].requests(id));
            match steps.last() {
                Step::Take { tick } => {
                    if before.queue.len() > 0 {
                        assert(before.status.contains_key(before.queue[0]));
                    }
                },
                _ => {},
            }
        }
    }

    /// A request that finds neither a state nor a result for `id` leaves it
    /// pending, and no step takes an identity's state away again: after a
    /// first request and any further steps, `id` still has a state.
    pub proof fn lemma_requested_stays_known(
        self,
        id: Seq<char>,
        force: bool,
        now: Timestamp,
        tick: Timestamp,
        steps: Seq<Step<R>>,
    )
        requires
            self.status_of(id) is None,
            !self.results.contains_key(id),
        ensures
            self.after_request(id, force, now, tick).status_of(id) == Some(
                CalcStatus::Pending((self.last_queue + 1) as u64, tick),
            ),
            self.after_request(id, force, now, tick).run(steps).status_of(id) is Some,
    {
        self.after_request(id, force, now, tick).lemma_known_stays_known(id, steps);
    }

    /// No step takes an identity's state away.
    pub proof fn lemma_known_stays_known(self, id: Seq<char>, steps: Seq<Step<R>>)
        requires
            self.status_of(id) is Some,
        ensures
            self.run(steps).status_of(id) is Some,
        decreases steps.len(),
    {
        if steps.len() > 0 {
            self.lemma_known_stays_known(id, steps.drop_last());
        }
    }

    /// While `id` has a job under way, a further request for it puts no
    /// second job in the queue and changes nothing at all. So of two
    /// requests in a row only the first can submit a job: after it the queue
    /// has one job more, that of `id`, which it did not hold before.
    pub proof fn lemma_second_request_adds_nothing(
        self,
        id: Seq<char>,
        force: bool,
        now: Timestamp,
        tick: Timestamp,
        again_force: bool,
        again_now: Timestamp,
        again_tick: Timestamp,
    )
        requires
            self.wf(),
            self.last_queue < u64::MAX,
            self.submits(id, force, now),
        ensures
            !self.queue.contains(id),
            self.after_request(id, force, now, tick).queue == self.queue.push(id),
            self.after_request(id, force, now, tick).queue.no_duplicates(),
            !self.after_request(id, force, now, tick).submits(id, again_force, again_now),
            self.after_request(id, force, now, tick).after_request(
                id,
                again_force,
                again_now,
                again_tick,
            ) == self.after_request(id, force, now, tick),
    {
        self.lemma_queued_iff_pending(id);
        self.lemma_request_keeps_wf(id, force, now, tick);
        self.after_request(id, force, now, tick).lemma_queue_has_no_duplicates();
    }

    /// A request for an identity that is pending or being calculated never
    /// submits a job, forced or not.
    pub proof fn lemma_live_request_is_not_doubled(
        self,
        id: Seq<char>,
        force: bool,
        now: Timestamp,
        tick: Timestamp,
    )
        requires
            self.status_of(id) matches Some(status) && (status is Pending
                || status is Calculating),
        ensures
            self.after_request(id, force, now, tick) == self,
    {
    }

    /// A sequence number is given out once: the job that a request submits
    /// gets a number above that of every job in the queue and above every
    /// number given out before.
    pub proof fn lemma_sequence_numbers_increase(
        self,
        id: Seq<char>,
        force: bool,
        now: Timestamp,
        tick: Timestamp,
    )
        requires
            self.wf(),
            self.last_queue < u64::MAX,
            self.submits(id, force, now),
        ensures
            self.after_request(id, force, now, tick).last_queue == self.last_queue + 1,
            self.after_request(id, force, now, tick).status_of(id) == Some(
                CalcStatus::Pending((self.last_queue + 1) as u64, tick),
            ),
            forall|i: int|
                0 <= i < self.queue.len() ==> #[trigger] self.sequence_at(i) < self.last_queue + 1,
    {
        assert forall|i: int| 0 <= i < self.queue.len() implies #[trigger] self.sequence_at(i)
            < self.last_queue + 1 by {
            assert(self.pending_at(i));
        }
    }

    /// Each step moves each request along its life and never back.
    pub proof fn lemma_step_follows_lifecycle(self, step: Step<R>, id: Seq<char>)
        requires
            self.wf(),
        ensures
            may_follow(self.status_of(id), self.step(step).status_of(id)),
    {
        match step {
            Step::Take { tick } => {
                if self.queue.len() > 0 {
                    assert(self.pending_at(0));
                }
            },
            _ => {},
        }
    }

    /// What is done was finished after it was asked for: where a request for
    /// `id` submitted a job at `now`, and no later report bears a time
    /// before `now`, then whenever `id` is done its result bears a time not
    /// before `now`.
    pub proof fn lemma_done_result_is_newer_than_request(
        self,
        id: Seq<char>,
        force: bool,
        now: Timestamp,
        tick: Timestamp,
        steps: Seq<Step<R>>,
    )
        requires
            self.submits(id, force, now),
            forall|i: int| 0 <= i < steps.len() ==> (#[trigger] steps[i]).not_finished_before(now),
        ensures
            self.after_request(id, force, now, tick).run(steps).status_of(id) is Some,
            self.after_request(id, force, now, tick).run(steps).status_of(id) == Some(
                CalcStatus::Done,
            ) ==> {
                &&& self.after_request(id, force, now, tick).run(steps).results.contains_key(id)
                &&& now.nanos <= self.after_request(id, force, now, tick).run(
                    steps,
                ).results[id].1.nanos
            },
        decreases steps.len(),
    {
        if steps.len() > 0 {
            assert forall|i: int| 0 <= i < steps.drop_last().len() implies (
            #[trigger] steps.drop_last()[i]).not_finished_before(now) by {
                assert(steps[i].not_finished_before(now));
            }
            self.lemma_done_result_is_newer_than_request(id, force, now, tick, steps.drop_last());
            assert(steps[steps.len() - 1].not_finished_before(now));
        }
    }

    /// A forced request for a result younger than the cooldown is refused
    /// and changes nothing; the answer holds the rest of the cooldown, which
    /// is more than nothing.
    pub proof fn lemma_fresh_result_cannot_be_forced(
        self,
        id: Seq<char>,
        now: Timestamp,
        tick: Timestamp,
    )
        requires
            self.results.contains_key(id),
            now.spec_since(self.results[id].1).nanos < self.cooldown.nanos,
        ensures
            self.admission(id, true, now) matches EnqueueResult::CantForce(left) && left.nanos
                == self.cooldown.nanos - now.spec_since(self.results[id].1).nanos && left.nanos
                > 0,
            self.after_request(id, true, now, tick) == self,
    {
    }

    /// A forced request for a result that has outlived the cooldown is
    /// taken. Where `id` has no job under way it becomes pending at the end
    /// of the queue; and once it is done after that, the cache holds a
    /// result for it that is not older than the request, as long as no
    /// report bears a time before the request.
    pub proof fn lemma_old_result_is_replaced(
        self,
        id: Seq<char>,
        now: Timestamp,
        tick: Timestamp,
        steps: Seq<Step<R>>,
    )
        requires
            self.results.contains_key(id),
            now.spec_since(self.results[id].1).nanos >= self.cooldown.nanos,
            forall|i: int| 0 <= i < steps.len() ==> (#[trigger] steps[i]).not_finished_before(now),
        ensures
            self.admission(id, true, now) == EnqueueResult::Enqueued,
            !(self.status_of(id) matches Some(status) && (status is Pending
                || status is Calculating)) ==> {
                &&& self.after_request(id, true, now, tick).status_of(id) == Some(
                    CalcStatus::Pending((self.last_queue + 1) as u64, tick),
                )
                &&& self.after_request(id, true, now, tick).queue == self.queue.push(id)
                &&& self.after_request(id, true, now, tick).run(steps).status_of(id) == Some(
                    CalcStatus::Done,
                ) ==> {
                    &&& self.after_request(id, true, now, tick).run(steps).results.contains_key(id)
                    &&& now.nanos <= self.after_request(id, true, now, tick).run(
                        steps,
                    ).results[id].1.nanos
                }
            },
    {
        if !(self.status_of(id) matches Some(status) && (status is Pending
            || status is Calculating)) {
            self.lemma_done_result_is_newer_than_request(id, true, now, tick, steps);
        }
    }

    /// A job that waited at the head of the queue for more than
    /// `STALE_AFTER_SECS` seconds without a ping is dropped when a worker
    /// asks for it: it leaves the queue, its identity is in error, and
    /// nothing else changes, the results least of all.
    pub proof fn lemma_stale_job_is_dropped(self, tick: Timestamp)
        requires
            self.queue.len() > 0,
            self.head_is_stale(tick),
        ensures
            self.after_take(tick).status_of(self.queue[0]) == Some(CalcStatus::Error),
            self.after_take(tick).queue == self.queue.drop_first(),
            self.after_take(tick).results == self.results,
            self.after_take(tick).current_queue == self.current_queue,
    {
    }
}

} // verus!
