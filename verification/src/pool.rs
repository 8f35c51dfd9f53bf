//! The dispatch queue: units of work wait in arrival order for a free
//! worker.  The workers themselves are threads of the embedding program;
//! each takes the oldest job, runs it to completion, and comes back for the
//! next.

use std::collections::VecDeque;
use vstd::prelude::*;
use crate::reply::PendingReply;
use crate::request::{parse_request, parsed, ExecutionRequest, RequestError};
use crate::value::{texts, HostValue, HostModel};

verus! {

/// A fixed number of workers and the unbounded first-in first-out queue
/// that feeds them.
pub struct ThreadPool<J> {
    size: usize,
    queue: VecDeque<J>,
}

/// A parsed request together with the parked caller that awaits its result.
pub struct Job<C> {
    pub request: ExecutionRequest,
    pub reply: PendingReply<C>,
}

impl<J> ThreadPool<J> {
    /// The number of workers the pool was made for.
    pub closed spec fn workers(&self) -> nat {
        self.size as nat
    }

    /// The jobs that wait, oldest first.
    pub closed spec fn queued(&self) -> Seq<J> {
        self.queue@
    }

    /// A pool for `size` workers, with nothing queued.
    pub fn new(size: usize) -> (pool: Self)
        ensures
            pool.workers() == size,
            pool.queued() == Seq::<J>::empty(),
    {
        ThreadPool { size, queue: VecDeque::new() }
    }

    /// The number of workers the pool was made for.
    pub fn size(&self) -> (r: usize)
        ensures
            r == self.workers(),
    {
        self.size
    }

    /// The number of jobs that wait.
    pub fn pending(&self) -> (r: usize)
        ensures
            r == self.queued().len(),
    {
        self.queue.len()
    }

    /// Queues `job` behind every job that already waits.
    pub fn execute(&mut self, job: J)
        ensures
            final(self).queued() == old(self).queued().push(job),
            final(self).workers() == old(self).workers(),
    {
        self.queue.push_back(job);
    }

    /// Takes the job that has waited longest, if any waits.
    pub fn next_job(&mut self) -> (r: Option<J>)
        ensures
            final(self).workers() == old(self).workers(),
            match r {
                Some(job) => {
                    &&& old(self).queued().len() > 0
                    &&& job == old(self).queued()[0]
                    &&& final(self).queued() == old(self).queued().drop_first()
                },
                None => {
                    &&& old(self).queued().len() == 0
                    &&& final(self).queued() == old(self).queued()
                },
            },
    {
        self.queue.pop_front()
    }
}

/// `num_cpus::get`: the number of processors available to this process,
/// which its documentation promises to be at least one.
#[verifier::external_body]
fn available_processors() -> (n: usize)
    ensures
        n >= 1,
{
    num_cpus::get()
}

/// The pool that is started once, before any request is served: one worker
/// for each available processor, and nothing queued.
pub fn startup_pool<J>() -> (pool: ThreadPool<J>)
    ensures
        pool.workers() >= 1,
        pool.queued() == Seq::<J>::empty(),
{
    ThreadPool::new(available_processors())
}

/// Handles one command: parses `tokens`, and, if they are well formed, parks
/// the caller through `park` and queues the request for a worker.
///
/// A malformed command is rejected with its error and leaves the pool as it
/// was.  A well-formed one yields [`HostValue::NoReply`]: the caller is
/// answered later, by the worker that runs the job.
pub fn evaljs_cmd<C, P>(pool: &mut ThreadPool<Job<C>>, tokens: Vec<String>, park: P) -> (r: Result<
    HostValue,
    RequestError,
>) where P: FnOnce() -> C
    requires
        call_requires(park, ()),
    ensures
        final(pool).workers() == old(pool).workers(),
        match parsed(texts(tokens@)) {
            Err(e) => {
                &&& r == Err::<HostValue, RequestError>(e)
                &&& final(pool).queued() == old(pool).queued()
            },
            Ok(request) => {
                &&& r matches Ok(reply)
                &&& reply@ == HostModel::NoReply
                &&& final(pool).queued().len() == old(pool).queued().len() + 1
                &&& final(pool).queued().drop_last() == old(pool).queued()
                &&& final(pool).queued().last().request@ == request
                &&& final(pool).queued().last().reply.waiting() matches Some(caller)
                &&& call_ensures(park, (), caller)
            },
        },
{
    match parse_request(tokens) {
        Err(e) => Err(e),
        Ok(request) => {
            let caller = park();
            let job = Job { request, reply: PendingReply::park(caller) };
            pool.execute(job);
            assert(pool.queued().drop_last() =~= old(pool).queued());
            Ok(HostValue::NoReply)
        },
    }
}

} // verus!
