//! Requests for a slow calculation, their admission and their queue.
//!
//! A `PlayerCache` holds the finished results, the state of every request,
//! and the queue of the jobs that wait for a worker. A request is answered
//! from the cache, refused while a result is too fresh to be replaced, or
//! put in the queue; an identity has at most one job in the queue at a time.
//! A worker takes the jobs in the order in which they came in, drops those
//! that nobody has asked for lately, and reports how each calculation ended.

use crate::cache_state::{spec_admission, CacheState};
use crate::clock::{TimeSpan, Timestamp};
use crate::profile_cache::{entries_map, CacheEntry, ProfileCache};
use crate::profile_queue::RequestStatus;
use crate::status_table::StatusTable;
use std::collections::VecDeque;
use vstd::prelude::*;

verus! {

/// Seconds without a ping after which a waiting request counts as given up.
pub const STALE_AFTER_SECS: u64 = 15;

/// Seconds that a result must have aged before it may be calculated anew,
/// unless a cache is made with another cooldown.
pub const COOLDOWN_SECS: u64 = 15 * 60;

/// The state of one identity's request.
#[derive(Clone, Copy, Debug, PartialEq, Eq, Structural)]
pub enum CalcStatus {
    /// Waiting in the queue, with the sequence number it got when it was
    /// accepted and the time at which it was last asked for.
    Pending(u64, Timestamp),
    /// A worker is calculating it.
    Calculating,
    /// The calculation succeeded; the result is in the cache.
    Done,
    /// The calculation failed, or the request was given up before its turn.
    Error,
}

impl CalcStatus {
    /// The sequence number of a pending request, and 0 for any other state.
    pub open spec fn sequence(self) -> u64 {
        match self {
            CalcStatus::Pending(sequence, _) => sequence,
            _ => 0,
        }
    }

    /// The time at which a pending request was last asked for.
    pub open spec fn last_ping(self) -> Timestamp {
        match self {
            CalcStatus::Pending(_, at) => at,
            _ => Timestamp { nanos: 0 },
        }
    }
}

/// The answer to a request for a calculation.
#[derive(Clone, Copy, Debug, PartialEq, Eq, Structural)]
pub enum EnqueueResult {
    /// A result is in the cache and no new one was asked for.
    AlreadyDone,
    /// The request is in the queue or already being worked on.
    Enqueued,
    /// The result in the cache is too fresh to be replaced; the payload is
    /// the time that has to pass before it can be.
    CantForce(TimeSpan),
}

/// What a worker is told when it asks for its next job.
#[derive(Debug, PartialEq, Eq)]
pub enum NextJob {
    /// The queue is empty: wait until a request comes in.
    Idle,
    /// The job of this identity was given up by its requester and has been
    /// dropped: nothing is to be calculated for it.
    Abandoned(String),
    /// Calculate for this identity, and report the outcome.
    Calculate(String),
}

/// Answers a request made at `now` for an identity whose result was
/// completed at `completed`, or which has none.
///
/// Without a result the answer is `Enqueued`. With one it is `AlreadyDone`
/// unless `force` is on; with `force` on it is `CantForce` with the rest of
/// the cooldown while the result is younger than `cooldown`, and `Enqueued`
/// after that. A result dated after `now` counts as having no age.
pub fn admission(
    completed: Option<Timestamp>,
    force: bool,
    now: Timestamp,
    cooldown: TimeSpan,
) -> (answer: EnqueueResult)
    ensures
        answer == spec_admission(completed, force, now, cooldown),
{
    match completed {
        None => EnqueueResult::Enqueued,
        Some(at) => {
            if !force {
                EnqueueResult::AlreadyDone
            } else {
                let elapsed = now.since(at);
                if elapsed.nanos < cooldown.nanos {
                    EnqueueResult::CantForce(TimeSpan { nanos: cooldown.nanos - elapsed.nanos })
                } else {
                    EnqueueResult::Enqueued
                }
            }
        },
    }
}

/// How far `sequence` lies above `current`, as a `usize`.
fn places_between(current: u64, sequence: u64) -> (places: usize)
    ensures
        places == crate::cache_state::places_between(current, sequence),
{
    if sequence <= current {
        0
    } else {
        let distance: u64 = sequence - current;
        if distance > usize::MAX as u64 {
            usize::MAX
        } else {
            distance as usize
        }
    }
}

/// The results, the state of every request and the queue of waiting jobs.
pub struct PlayerCache<R> {
    calc_status: StatusTable,
    data: ProfileCache<R>,
    queue: VecDeque<String>,
    last_queue: u64,
    current_queue: u64,
    cooldown: TimeSpan,
}

impl<R> View for PlayerCache<R> {
    type V = CacheState<R>;

    closed spec fn view(&self) -> CacheState<R> {
        CacheState {
            status: self.calc_status@,
            results: self.data@,
            queue: self.queue@.map_values(|identity: String| identity@),
            last_queue: self.last_queue,
            current_queue: self.current_queue,
            cooldown: self.cooldown,
        }
    }
}

impl<R> PlayerCache<R> {
    /// The parts of the cache are sound in themselves.
    pub closed spec fn inv(&self) -> bool {
        self.data.wf()
    }

    /// The cache is sound, and its state is one that its operations reach.
    pub open spec fn wf(&self) -> bool {
        self.inv() && self@.wf()
    }

    /// A cache that refuses to replace a result younger than
    /// `COOLDOWN_SECS` seconds.
    ///
    /// With `Some(entries)` it starts with the results that the entries
    /// hold, with `None` without any. No request is known to it yet.
    pub fn new(loaded: Option<Vec<CacheEntry<R>>>) -> (cache: Self)
        ensures
            cache.wf(),
            cache@ == CacheState::starting(
                TimeSpan::spec_from_secs(COOLDOWN_SECS),
                match loaded {
                    Some(entries) => entries_map(entries@),
                    None => Map::empty(),
                },
            ),
    {
        Self::with_cooldown(TimeSpan::from_secs(COOLDOWN_SECS), loaded)
    }

    /// A cache like that of `new`, which refuses to replace a result younger
    /// than `cooldown`.
    pub fn with_cooldown(cooldown: TimeSpan, loaded: Option<Vec<CacheEntry<R>>>) -> (cache: Self)
        ensures
            cache.wf(),
            cache@ == CacheState::starting(
                cooldown,
                match loaded {
                    Some(entries) => entries_map(entries@),
                    None => Map::empty(),
                },
            ),
    {
        let cache = PlayerCache {
            calc_status: StatusTable::new(),
            data: ProfileCache::new(loaded),
            queue: VecDeque::new(),
            last_queue: 0,
            current_queue: 0,
            cooldown,
        };
        assert(cache@.queue =~= Seq::empty());
        cache
    }

    /// Asks for a calculation for `player`, at `now` by the clock that dates
    /// the results and at `tick` by the clock that dates the pings.
    ///
    /// The answer is `AlreadyDone` where a result is in the cache and
    /// `force` is off, `CantForce` with the rest of the cooldown where
    /// `force` is on and the result is younger than the cooldown, and
    /// `Enqueued` otherwise. A job goes to the queue only with the answer
    /// `Enqueued`, and only where `player` has no job under way; it then
    /// gets the next sequence number and is pending since `tick`.
    pub fn calculate_request(
        &mut self,
        player: String,
        force: bool,
        now: Timestamp,
        tick: Timestamp,
    ) -> (answer: EnqueueResult)
        requires
            old(self).wf(),
            old(self)@.last_queue < u64::MAX,
        ensures
            final(self).wf(),
            answer == old(self)@.admission(player@, force, now),
            final(self)@ == old(self)@.after_request(player@, force, now, tick),
    {
        proof {
            self@.lemma_request_keeps_wf(player@, force, now, tick);
        }
        let completed: Option<Timestamp> = match self.data.peek(player.as_str()) {
            Some((_, at)) => Some(at),
            None => None,
        };
        let answer = admission(completed, force, now, self.cooldown);
        let free = match answer {
            EnqueueResult::Enqueued => match self.calc_status.get(player.as_str()) {
                None | Some(CalcStatus::Error) => true,
                Some(CalcStatus::Done) => completed.is_some(),
                _ => false,
            },
            _ => false,
        };
        if free {
            self.last_queue = self.last_queue + 1;
            self.calc_status.set_pending(player.clone(), self.last_queue, tick);
            self.queue.push_back(player);
            assert(final(self)@.queue =~= old(self)@.queue.push(player@));
        }
        answer
    }

    /// The state of `player`'s request, and `None` if it never made one.
    pub fn check_status(&self, player: String) -> (status: Option<CalcStatus>)
        ensures
            status == self@.status_of(player@),
    {
        self.calc_status.get(player.as_str())
    }

    /// Records that `player` was asked for at `tick`. A pending request
    /// stays alive by it; any other is left as it is.
    pub fn ping(&mut self, player: String, tick: Timestamp)
        requires
            old(self).wf(),
        ensures
            final(self).wf(),
            final(self)@ == old(self)@.after_ping(player@, tick),
    {
        proof {
            self@.lemma_ping_keeps_wf(player@, tick);
        }
        self.calc_status.ping(player, tick);
    }

    /// Obtains the status of `player`'s request for a client that polls at
    /// `tick`, and takes the poll for a ping.
    ///
    /// A pending request is told the distance from the job that a worker
    /// started last to its own, by sequence numbers.
    pub fn status(&mut self, player: String, tick: Timestamp) -> (status: Option<RequestStatus>)
        requires
            old(self).wf(),
        ensures
            final(self).wf(),
            status == old(self)@.reported_status(player@),
            final(self)@ == old(self)@.after_ping(player@, tick),
    {
        proof {
            self@.lemma_ping_keeps_wf(player@, tick);
        }
        let status = match self.calc_status.get(player.as_str()) {
            None => None,
            Some(CalcStatus::Pending(sequence, _)) => Some(
                RequestStatus::Pending(places_between(self.current_queue, sequence)),
            ),
            Some(CalcStatus::Calculating) => Some(RequestStatus::Calculating),
            Some(CalcStatus::Done) => Some(RequestStatus::Done),
            Some(CalcStatus::Error) => Some(RequestStatus::Error),
        };
        self.calc_status.ping(player, tick);
        status
    }

    /// The sequence number of the job that a worker started last, and 0
    /// before the first.
    pub fn get_current_in_queue(&self) -> (current: u64)
        ensures
            current == self@.current_queue,
    {
        self.current_queue
    }

    /// The sequence number that was given out last, and 0 before the first.
    pub fn get_last_in_queue(&self) -> (last: u64)
        ensures
            last == self@.last_queue,
    {
        self.last_queue
    }

    /// The result of `player` in the cache, and `None` if it has none.
    pub fn get_performance(&self, player: String) -> (found: Option<&R>)
        requires
            self.wf(),
        ensures
            match found {
                Some(result) => self@.results.contains_key(player@) && *result
                    == self@.results[player@].0,
                None => !self@.results.contains_key(player@),
            },
    {
        match self.data.peek(player.as_str()) {
            Some((result, _)) => Some(result),
            None => None,
        }
    }

    /// The results of the cache, for reading and for saving.
    pub fn results(&self) -> (data: &ProfileCache<R>)
        requires
            self.wf(),
        ensures
            data.wf(),
            data@ == self@.results,
    {
        &self.data
    }

    /// Hands the job at the head of the queue to a worker that asks for one
    /// at `tick`.
    ///
    /// A job that was last asked for more than `STALE_AFTER_SECS` seconds
    /// before `tick` is dropped: its identity is in error, and the worker is
    /// told not to calculate. Any other job is started: its identity is
    /// being calculated, and its sequence number becomes the current one.
    pub fn take_job(&mut self, tick: Timestamp) -> (job: NextJob)
        requires
            old(self).wf(),
        ensures
            final(self).wf(),
            final(self)@ == old(self)@.after_take(tick),
            match job {
                NextJob::Idle => old(self)@.queue.len() == 0,
                NextJob::Abandoned(id) => old(self)@.queue.len() > 0 && id@ == old(self)@.queue[0]
                    && old(self)@.head_is_stale(tick),
                NextJob::Calculate(id) => old(self)@.queue.len() > 0 && id@ == old(self)@.queue[0]
                    && !old(self)@.head_is_stale(tick),
            },
    {
        proof {
            self@.lemma_take_keeps_wf(tick);
        }
        match self.queue.pop_front() {
            None => NextJob::Idle,
            Some(player) => {
                assert(old(self)@.pending_at(0));
                assert(self@.queue =~= old(self)@.queue.drop_first());
                match self.calc_status.get(player.as_str()) {
                    Some(CalcStatus::Pending(sequence, last_ping)) => {
                        let waited = tick.since(last_ping);
                        if waited.nanos > TimeSpan::from_secs(STALE_AFTER_SECS).nanos {
                            self.calc_status.set_error(player.clone());
                            NextJob::Abandoned(player)
                        } else {
                            self.current_queue = sequence;
                            self.calc_status.set_calculating(player.clone());
                            NextJob::Calculate(player)
                        }
                    },
                    // Whatever waits in the queue is pending, so nothing comes here.
                    _ => {
                        self.calc_status.set_calculating(player.clone());
                        NextJob::Calculate(player)
                    },
                }
            },
        }
    }

    /// Takes a worker's report, made at `now`, of how the calculation for
    /// `player` ended: `Some` with the result, or `None` for a failure.
    ///
    /// A result enters the cache with `now` as its time and makes `player`
    /// done; a failure puts `player` in error and leaves the cache as it
    /// is. The report counts only while `player` is being calculated: the
    /// answer says whether it did.
    pub fn finish_job(
        &mut self,
        player: String,
        outcome: Option<R>,
        now: Timestamp,
    ) -> (counted: bool)
        requires
            old(self).wf(),
        ensures
            final(self).wf(),
            counted == (old(self)@.status_of(player@) == Some(CalcStatus::Calculating)),
            final(self)@ == old(self)@.after_finish(player@, outcome, now),
    {
        proof {
            self@.lemma_finish_keeps_wf(player@, outcome, now);
        }
        match self.calc_status.get(player.as_str()) {
            Some(CalcStatus::Calculating) => {
                match outcome {
                    Some(result) => {
                        self.data.set(player.clone(), result, now);
                        self.calc_status.set_done(player);
                    },
                    None => {
                        self.calc_status.set_error(player);
                    },
                }
                true
            },
            _ => false,
        }
    }
}

} // verus!
