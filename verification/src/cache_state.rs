//! The states of a `PlayerCache` as plain values, the steps that lead from
//! one state to the next, and what holds of every state that they reach.

use crate::clock::{TimeSpan, Timestamp};
use crate::player_cache::{CalcStatus, EnqueueResult, STALE_AFTER_SECS};
use crate::profile_queue::RequestStatus;
use crate::status_table::pinged;
use vstd::prelude::*;

verus! {

/// How far `sequence` lies above `current`: their difference, nothing where
/// `sequence` is not above `current`, and the largest `usize` where the
/// difference is larger than that.
pub open spec fn places_between(current: u64, sequence: u64) -> usize {
    if sequence <= current {
        0
    } else if sequence - current > usize::MAX {
        usize::MAX
    } else {
        (sequence - current) as usize
    }
}

/// The answer to a request made at `now` for an identity whose result was
/// completed at `completed`, or which has none.
///
/// Without a result the request is taken. With one, an unforced request is
/// served from the cache. A forced one is refused while the result is
/// younger than `cooldown`, with the time that is left of it; after that it
/// is taken. A result that claims to come from the future counts as new.
pub open spec fn spec_admission(
    completed: Option<Timestamp>,
    force: bool,
    now: Timestamp,
    cooldown: TimeSpan,
) -> EnqueueResult {
    match completed {
        None => EnqueueResult::Enqueued,
        Some(at) => if !force {
            EnqueueResult::AlreadyDone
        } else if now.spec_since(at).nanos < cooldown.nanos {
            EnqueueResult::CantForce(
                TimeSpan { nanos: (cooldown.nanos - now.spec_since(at).nanos) as u128 },
            )
        } else {
            EnqueueResult::Enqueued
        },
    }
}

/// The whole of a `PlayerCache` as plain values.
pub struct CacheState<R> {
    /// The state of each request.
    pub status: Map<Seq<char>, CalcStatus>,
    /// The finished results, each with the time of its completion.
    pub results: Map<Seq<char>, (R, Timestamp)>,
    /// The identities whose jobs wait for a worker, the oldest first.
    pub queue: Seq<Seq<char>>,
    /// The sequence number that was given out last.
    pub last_queue: u64,
    /// The sequence number of the job that a worker started last.
    pub current_queue: u64,
    /// The age that a result must have before it may be calculated anew.
    pub cooldown: TimeSpan,
}

impl<R> CacheState<R> {
    /// The state in which a cache starts: it holds the given results, no
    /// request was made yet, and no sequence number was given out.
    pub open spec fn starting(cooldown: TimeSpan, results: Map<Seq<char>, (R, Timestamp)>) -> Self {
        CacheState {
            status: Map::empty(),
            results,
            queue: Seq::empty(),
            last_queue: 0,
            current_queue: 0,
            cooldown,
        }
    }

    /// The state of `id`'s request, if it ever made one.
    pub open spec fn status_of(self, id: Seq<char>) -> Option<CalcStatus> {
        if self.status.contains_key(id) {
            Some(self.status[id])
        } else {
            None
        }
    }

    /// What a polling client is told of `id`'s request. Of a pending one it
    /// is told how far its sequence number lies above that of the job that a
    /// worker started last, as an estimate of its place in line.
    pub open spec fn reported_status(self, id: Seq<char>) -> Option<RequestStatus> {
        match self.status_of(id) {
            None => None,
            Some(CalcStatus::Pending(sequence, _)) => Some(
                RequestStatus::Pending(places_between(self.current_queue, sequence)),
            ),
            Some(CalcStatus::Calculating) => Some(RequestStatus::Calculating),
            Some(CalcStatus::Done) => Some(RequestStatus::Done),
            Some(CalcStatus::Error) => Some(RequestStatus::Error),
        }
    }

    /// The identity at place `i` of the queue is pending.
    pub open spec fn pending_at(self, i: int) -> bool {
        self.status.contains_key(self.queue[i]) && self.status[self.queue[i]] is Pending
    }

    /// The sequence number of the job at place `i` of the queue.
    pub open spec fn sequence_at(self, i: int) -> u64 {
        self.status[self.queue[i]].sequence()
    }

    /// What holds of every state that the operations of a cache can reach:
    /// the queue holds exactly the pending identities, in the order of their
    /// sequence numbers, which lie above the number of the job started last
    /// and not above the number given out last; and whatever is done has a
    /// result.
    pub open spec fn wf(self) -> bool {
        &&& self.current_queue <= self.last_queue
        &&& forall|i: int|
            0 <= i < self.queue.len() ==> #[trigger] self.pending_at(i) && self.current_queue
                < self.sequence_at(i) <= self.last_queue
        &&& forall|i: int, j: int|
            0 <= i < j < self.queue.len() ==> #[trigger] self.sequence_at(i)
                < #[trigger] self.sequence_at(j)
        &&& forall|id: Seq<char>|
            #[trigger] self.status.contains_key(id) && self.status[id] is Pending
                ==> self.queue.contains(id)
        &&& forall|id: Seq<char>|
            #[trigger] self.status.contains_key(id) && self.status[id] is Done
                ==> self.results.contains_key(id)
    }

    /// The answer to a request for `id` at time `now`: that of
    /// `spec_admission` for the result that the cache holds for `id`.
    pub open spec fn admission(self, id: Seq<char>, force: bool, now: Timestamp) -> EnqueueResult {
        spec_admission(
            if self.results.contains_key(id) {
                Some(self.results[id].1)
            } else {
                None
            },
            force,
            now,
            self.cooldown,
        )
    }

    /// A request for `id` that is taken puts a new job in the queue: `id`
    /// has no job under way. That is, it never made a request, or its last
    /// one failed, or it is done and a result is being replaced.
    pub open spec fn submits(self, id: Seq<char>, force: bool, now: Timestamp) -> bool {
        &&& self.admission(id, force, now) == EnqueueResult::Enqueued
        &&& match self.status_of(id) {
            None => true,
            Some(CalcStatus::Error) => true,
            Some(CalcStatus::Done) => self.results.contains_key(id),
            _ => false,
        }
    }

    /// The state after a job for `id` went to the end of the queue at `tick`:
    /// it has the next sequence number and is pending.
    pub open spec fn enqueued(self, id: Seq<char>, tick: Timestamp) -> Self {
        let sequence = (self.last_queue + 1) as u64;
        CacheState {
            status: self.status.insert(id, CalcStatus::Pending(sequence, tick)),
            queue: self.queue.push(id),
            last_queue: sequence,
            ..self
        }
    }

    /// The state after a request for `id`.
    pub open spec fn after_request(
        self,
        id: Seq<char>,
        force: bool,
        now: Timestamp,
        tick: Timestamp,
    ) -> Self {
        if self.submits(id, force, now) {
            self.enqueued(id, tick)
        } else {
            self
        }
    }

    /// The state after `id` was asked for at `tick`.
    pub open spec fn after_ping(self, id: Seq<char>, tick: Timestamp) -> Self {
        CacheState { status: pinged(self.status, id, tick), ..self }
    }

    /// The job at the head of the queue was last asked for more than
    /// `STALE_AFTER_SECS` seconds before `tick`.
    pub open spec fn head_is_stale(self, tick: Timestamp) -> bool {
        tick.spec_since(self.status[self.queue[0]].last_ping()).nanos > TimeSpan::spec_from_secs(
            STALE_AFTER_SECS,
        ).nanos
    }

    /// The state after the job at the head of the queue was dropped as given
    /// up: its identity is in error.
    pub open spec fn head_abandoned(self) -> Self {
        CacheState {
            status: self.status.insert(self.queue[0], CalcStatus::Error),
            queue: self.queue.drop_first(),
            ..self
        }
    }

    /// The state after a worker started on the job at the head of the queue:
    /// its identity is being calculated, and its sequence number is the
    /// current one.
    pub open spec fn head_started(self) -> Self {
        CacheState {
            status: self.status.insert(self.queue[0], CalcStatus::Calculating),
            queue: self.queue.drop_first(),
            current_queue: self.sequence_at(0),
            ..self
        }
    }

    /// The state after a worker asked for its next job at `tick`.
    pub open spec fn after_take(self, tick: Timestamp) -> Self {
        if self.queue.len() == 0 {
            self
        } else if self.head_is_stale(tick) {
            self.head_abandoned()
        } else {
            self.head_started()
        }
    }

    /// The state after a worker reported at `now` how the calculation for
    /// `id` ended. A result makes `id` done and enters the cache with `now`
    /// as its time; a failure puts `id` in error and leaves the cache alone.
    /// A report for an identity that is not being calculated changes
    /// nothing.
    pub open spec fn after_finish(self, id: Seq<char>, outcome: Option<R>, now: Timestamp) -> Self {
        if self.status_of(id) == Some(CalcStatus::Calculating) {
            match outcome {
                Some(result) => CacheState {
                    status: self.status.insert(id, CalcStatus::Done),
                    results: self.results.insert(id, (result, now)),
                    ..self
                },
                None => CacheState { status: self.status.insert(id, CalcStatus::Error), ..self },
            }
        } else {
            self
        }
    }

    /// No identity has two jobs in the queue.
    pub proof fn lemma_queue_has_no_duplicates(self)
        requires
            self.wf(),
        ensures
            self.queue.no_duplicates(),
    {
        assert forall|i: int, j: int|
            0 <= i < self.queue.len() && 0 <= j < self.queue.len() && i != j implies self.queue[i]
            != self.queue[j] by {
            if i < j {
                assert(self.sequence_at(i) < self.sequence_at(j));
            } else {
                assert(self.sequence_at(j) < self.sequence_at(i));
            }
        }
    }

    /// An identity has a job in the queue exactly when it is pending.
    pub proof fn lemma_queued_iff_pending(self, id: Seq<char>)
        requires
            self.wf(),
        ensures
            self.queue.contains(id) <==> (self.status_of(id) matches Some(status)
                && status is Pending),
    {
        if self.queue.contains(id) {
            let i = choose|i: int| 0 <= i < self.queue.len() && self.queue[i] == id;
            assert(self.pending_at(i));
        }
    }

    /// A request leaves a well-formed state well-formed, as long as a
    /// sequence number is left to give out.
    pub proof fn lemma_request_keeps_wf(
        self,
        id: Seq<char>,
        force: bool,
        now: Timestamp,
        tick: Timestamp,
    )
        requires
            self.wf(),
            self.last_queue < u64::MAX,
        ensures
            self.after_request(id, force, now, tick).wf(),
    {
        if self.submits(id, force, now) {
            let next = self.enqueued(id, tick);
            let n = self.queue.len() as int;
            self.lemma_queued_iff_pending(id);
            assert forall|i: int| 0 <= i < n implies self.queue[i] != id && next.sequence_at(i)
                == self.sequence_at(i) && next.pending_at(i) by {
                assert(self.pending_at(i));
            }
            assert(next.queue[n] == id);
            assert(next.pending_at(n));
            assert forall|i: int| 0 <= i < next.queue.len() implies #[trigger] next.pending_at(i)
                && next.current_queue < next.sequence_at(i) <= next.last_queue by {
                if i < n {
                    assert(self.pending_at(i));
                }
            }
            assert forall|i: int, j: int| 0 <= i < j < next.queue.len() implies #[trigger]
                next.sequence_at(i) < #[trigger] next.sequence_at(j) by {
                assert(self.pending_at(i));
                if j < n {
                    assert(self.sequence_at(i) < self.sequence_at(j));
                }
            }
            assert forall|other: Seq<char>| #[trigger]
                next.status.contains_key(other) && next.status[other] is Pending implies
                next.queue.contains(other) by {
                if other == id {
                    assert(next.queue[n] == other);
                } else {
                    assert(self.status.contains_key(other));
                    let i = choose|i: int| 0 <= i < n && self.queue[i] == other;
                    assert(next.queue[i] == other);
                }
            }
        }
    }

    /// A ping leaves a well-formed state well-formed.
    pub proof fn lemma_ping_keeps_wf(self, id: Seq<char>, tick: Timestamp)
        requires
            self.wf(),
        ensures
            self.after_ping(id, tick).wf(),
    {
        let next = self.after_ping(id, tick);
        assert forall|i: int| 0 <= i < next.queue.len() implies #[trigger] next.pending_at(i)
            && next.sequence_at(i) == self.sequence_at(i) by {
            assert(self.pending_at(i));
        }
        assert forall|i: int| 0 <= i < next.queue.len() implies #[trigger] next.pending_at(i)
            && next.current_queue < next.sequence_at(i) <= next.last_queue by {
            assert(self.pending_at(i));
        }
        assert forall|i: int, j: int| 0 <= i < j < next.queue.len() implies #[trigger]
            next.sequence_at(i) < #[trigger] next.sequence_at(j) by {
            assert(self.pending_at(i));
            assert(self.pending_at(j));
            assert(self.sequence_at(i) < self.sequence_at(j));
        }
        assert forall|other: Seq<char>| #[trigger]
            next.status.contains_key(other) && next.status[other] is Pending implies
            next.queue.contains(other) by {
            assert(self.status.contains_key(other));
        }
        assert forall|other: Seq<char>| #[trigger]
            next.status.contains_key(other) && next.status[other] is Done implies
            next.results.contains_key(other) by {
            assert(self.status.contains_key(other));
        }
    }

    /// Handing the next job to a worker leaves a well-formed state
    /// well-formed.
    pub proof fn lemma_take_keeps_wf(self, tick: Timestamp)
        requires
            self.wf(),
        ensures
            self.after_take(tick).wf(),
    {
        if self.queue.len() > 0 {
            let next = self.after_take(tick);
            let head = self.queue[0];
            self.lemma_queue_has_no_duplicates();
            assert(self.pending_at(0));
            assert forall|i: int| 0 <= i < next.queue.len() implies next.queue[i] == self.queue[i
                + 1] && next.queue[i] != head && #[trigger] next.pending_at(i) && next.sequence_at(
                i,
            ) == self.sequence_at(i + 1) && next.current_queue < next.sequence_at(i)
                <= next.last_queue by {
                assert(self.pending_at(i + 1));
                assert(self.sequence_at(0) < self.sequence_at(i + 1));
            }
            assert forall|i: int, j: int| 0 <= i < j < next.queue.len() implies #[trigger]
                next.sequence_at(i) < #[trigger] next.sequence_at(j) by {
                assert(next.pending_at(i));
                assert(next.pending_at(j));
                assert(self.sequence_at(i + 1) < self.sequence_at(j + 1));
            }
            assert forall|other: Seq<char>| #[trigger]
                next.status.contains_key(other) && next.status[other] is Pending implies
                next.queue.contains(other) by {
                assert(other != head);
                assert(self.status.contains_key(other));
                let i = choose|i: int| 0 <= i < self.queue.len() && self.queue[i] == other;
                assert(next.queue[i - 1] == other);
            }
            assert forall|other: Seq<char>| #[trigger]
                next.status.contains_key(other) && next.status[other] is Done implies
                next.results.contains_key(other) by {
                assert(self.status.contains_key(other));
            }
        }
    }

    /// The report of an outcome leaves a well-formed state well-formed.
    pub proof fn lemma_finish_keeps_wf(self, id: Seq<char>, outcome: Option<R>, now: Timestamp)
        requires
            self.wf(),
        ensures
            self.after_finish(id, outcome, now).wf(),
    {
        if self.status_of(id) == Some(CalcStatus::Calculating) {
            let next = self.after_finish(id, outcome, now);
            self.lemma_queued_iff_pending(id);
            assert forall|i: int| 0 <= i < next.queue.len() implies next.queue[i] != id
                && #[trigger] next.pending_at(i) && next.sequence_at(i) == self.sequence_at(i) by {
                assert(self.pending_at(i));
            }
            assert forall|i: int| 0 <= i < next.queue.len() implies #[trigger] next.pending_at(i)
                && next.current_queue < next.sequence_at(i) <= next.last_queue by {
                assert(self.pending_at(i));
            }
            assert forall|i: int, j: int| 0 <= i < j < next.queue.len() implies #[trigger]
                next.sequence_at(i) < #[trigger] next.sequence_at(j) by {
                assert(next.pending_at(i));
                assert(next.pending_at(j));
                assert(self.sequence_at(i) < self.sequence_at(j));
            }
            assert forall|other: Seq<char>| #[trigger]
                next.status.contains_key(other) && next.status[other] is Pending implies
                next.queue.contains(other) by {
                assert(self.status.contains_key(other));
            }
            assert forall|other: Seq<char>| #[trigger]
                next.status.contains_key(other) && next.status[other] is Done implies
                next.results.contains_key(other) by {
                if other != id {
                    assert(self.status.contains_key(other));
                }
            }
        }
    }
}

} // verus!
