//! The bookkeeping of a job queue for profile calculations.
//!
//! The jobs themselves run in a worker queue outside this library, which
//! gives each job a number and tells its state and its place in line. What is
//! kept here is what a polling client needs on top of that: which job
//! belongs to which user, and whose calculation failed.
//!
//! A user can be requested many times; while its job is known it is always
//! the same single job.

use crate::clock::Timestamp;
use crate::profile_cache::ProfileCache;
use vstd::hash_map::StringHashMap;
use vstd::prelude::*;

verus! {

/// The state of a job as the worker queue tells it.
#[derive(Clone, Copy, Debug, PartialEq, Eq, Structural)]
pub enum JobState {
    /// The job waits for a worker.
    Pending,
    /// A worker has taken the job.
    Acknowledged,
    /// The job has ended, well or badly.
    Complete,
}

/// The status of a request. When it is `Pending`, the number is the place
/// of the request in the queue, that is, how many are ahead of it.
#[derive(Clone, Copy, Debug, PartialEq, Eq, Structural)]
pub enum RequestStatus {
    Pending(usize),
    Calculating,
    Done,
    Error,
}

/// The status of a request whose job is in `state` at place `position` of
/// the worker queue, and whose calculation `failed` or did not.
pub open spec fn spec_request_status(state: JobState, position: usize, failed: bool)
    -> RequestStatus {
    match state {
        JobState::Pending => RequestStatus::Pending(position),
        JobState::Acknowledged => RequestStatus::Calculating,
        JobState::Complete => if failed {
            RequestStatus::Error
        } else {
            RequestStatus::Done
        },
    }
}

/// The status of a request whose job is in `state` at place `position` of
/// the worker queue, and whose calculation `failed` or did not.
pub fn request_status(state: JobState, position: usize, failed: bool) -> (status: RequestStatus)
    ensures
        status == spec_request_status(state, position, failed),
{
    match state {
        JobState::Pending => RequestStatus::Pending(position),
        JobState::Acknowledged => RequestStatus::Calculating,
        JobState::Complete => if failed {
            RequestStatus::Error
        } else {
            RequestStatus::Done
        },
    }
}

/// A `ProfileQueue` as plain values.
pub struct QueueState {
    /// The number of each user's job.
    pub jobs: Map<Seq<char>, usize>,
    /// The users whose calculation failed.
    pub failed: Set<Seq<char>>,
}

/// The ProfileQueue struct.
pub struct ProfileQueue {
    calculation_errors: StringHashMap<bool>,
    user_job_id: StringHashMap<usize>,
}

impl View for ProfileQueue {
    type V = QueueState;

    closed spec fn view(&self) -> QueueState {
        QueueState { jobs: self.user_job_id@, failed: self.calculation_errors@.dom() }
    }
}

impl ProfileQueue {
    /// Creates a new `ProfileQueue`, which knows of no job yet.
    pub fn new() -> (queue: Self)
        ensures
            queue@.jobs == Map::<Seq<char>, usize>::empty(),
            queue@.failed == Set::<Seq<char>>::empty(),
    {
        let queue = ProfileQueue {
            calculation_errors: StringHashMap::new(),
            user_job_id: StringHashMap::new(),
        };
        assert(queue@.failed =~= Set::<Seq<char>>::empty());
        queue
    }

    /// The number of `user`'s job, and `None` while it has none. Only a user
    /// without a job is to be given one.
    pub fn job_id(&self, user: String) -> (job: Option<usize>)
        ensures
            job == if self@.jobs.contains_key(user@) {
                Some(self@.jobs[user@])
            } else {
                None
            },
    {
        match self.user_job_id.get(user.as_str()) {
            Some(job) => Some(*job),
            None => None,
        }
    }

    /// Notes that `user` was placed into the calculation queue as job
    /// `job_id`. If the user already is on the queue, nothing happens.
    pub fn enqueue(&mut self, user: String, job_id: usize)
        ensures
            final(self)@.failed == old(self)@.failed,
            final(self)@.jobs == if old(self)@.jobs.contains_key(user@) {
                old(self)@.jobs
            } else {
                old(self)@.jobs.insert(user@, job_id)
            },
    {
        if !self.user_job_id.contains_key(user.as_str()) {
            self.user_job_id.insert(user, job_id);
        }
    }

    /// Obtains the status of a calculation request for a `user`, whose job
    /// the worker queue shows in `state` at place `position`. A user
    /// without a job has no status.
    pub fn status(
        &self,
        user: String,
        state: JobState,
        position: usize,
    ) -> (status: Option<RequestStatus>)
        ensures
            status == if self@.jobs.contains_key(user@) {
                Some(spec_request_status(state, position, self@.failed.contains(user@)))
            } else {
                None
            },
    {
        if self.user_job_id.contains_key(user.as_str()) {
            let failed = self.calculation_errors.contains_key(user.as_str());
            Some(request_status(state, position, failed))
        } else {
            None
        }
    }

    /// Takes the outcome of `user`'s job at `now`: a result goes into
    /// `profile_cache`, a failure is remembered here.
    pub fn job_completed<R>(
        &mut self,
        profile_cache: &mut ProfileCache<R>,
        user: String,
        result: Option<R>,
        now: Timestamp,
    )
        requires
            old(profile_cache).wf(),
        ensures
            final(profile_cache).wf(),
            final(self)@.jobs == old(self)@.jobs,
            match result {
                Some(profile_results) => {
                    &&& final(profile_cache)@ == old(profile_cache)@.insert(
                        user@,
                        (profile_results, now),
                    )
                    &&& final(self)@.failed == old(self)@.failed
                },
                None => {
                    &&& final(profile_cache)@ == old(profile_cache)@
                    &&& final(self)@.failed == old(self)@.failed.insert(user@)
                },
            },
    {
        match result {
            Some(profile_results) => {
                profile_cache.set(user, profile_results, now);
            },
            None => {
                self.calculation_errors.insert(user, true);
                assert(final(self)@.failed =~= old(self)@.failed.insert(user@));
            },
        }
    }
}

} // verus!
