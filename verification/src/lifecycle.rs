//! The engine lifecycle: each worker owns one slot, in which its execution
//! context is created on first use and reused ever after.
//!
//! A slot never leaves its worker.  If the context cannot be created the
//! slot is marked failed for good: the worker answers every request with
//! the error that says there is no engine, and the slots of other workers
//! are not touched.

use vstd::prelude::*;
use crate::pool::Job;
use crate::redisjs::HostCall;
use crate::reply::{Delivery, Reply, ResolveError};
use crate::request::ExecutionRequest;
use crate::value::HostValue;
use crate::vm::{
    reply_for, reply_model, EngineError, EvalOutcome, OutcomeModel, STACK_SIZE, VM,
};

verus! {

/// The state of a worker's slot.
pub enum SlotState {
    /// No request has been served yet.
    Empty,
    /// The context is there.
    Ready(VM),
    /// The context could not be created.
    Failed,
}

/// True when two states differ at most in what the context holds: both are
/// empty, or both failed, or both hold a context with the same stack limit.
pub open spec fn same_phase(a: SlotState, b: SlotState) -> bool {
    match a {
        SlotState::Empty => b is Empty,
        SlotState::Failed => b is Failed,
        SlotState::Ready(vm) => b matches SlotState::Ready(other) && vm.stack_limit()
            == other.stack_limit(),
    }
}

/// The place of a worker's execution context.
pub struct EngineSlot {
    state: SlotState,
}

impl EngineSlot {
    /// The state of the slot.
    pub closed spec fn state(&self) -> SlotState {
        self.state
    }

    /// The state that an empty slot takes when the creation of its context
    /// ended in `built`; a slot that is not empty stays as it is.
    pub open spec fn settled(before: SlotState, built: Result<VM, EngineError>) -> SlotState {
        match before {
            SlotState::Empty => match built {
                Ok(vm) => SlotState::Ready(vm),
                Err(_) => SlotState::Failed,
            },
            _ => before,
        }
    }

    /// An empty slot.
    pub fn new() -> (slot: Self)
        ensures
            slot.state() is Empty,
    {
        EngineSlot { state: SlotState::Empty }
    }

    /// Whether a context still has to be created.
    pub fn is_empty(&self) -> (r: bool)
        ensures
            r == (self.state() is Empty),
    {
        match &self.state {
            SlotState::Empty => true,
            _ => false,
        }
    }

    /// Whether the slot holds a context.
    pub fn is_ready(&self) -> (r: bool)
        ensures
            r == (self.state() is Ready),
    {
        match &self.state {
            SlotState::Ready(_) => true,
            _ => false,
        }
    }

    /// Evaluates a request in the slot's context.  A slot without a context
    /// answers with the error that says there is no engine.  The slot keeps
    /// its context; the script may have changed what the context holds.
    pub fn evaluate(&mut self, request: &ExecutionRequest) -> (r: Reply)
        ensures
            same_phase(old(self).state(), final(self).state()),
            exists|outcome: OutcomeModel|
                r@ == reply_model(outcome) && (outcome is Unavailable <==> !(old(self).state()
                    is Ready)),
    {
        match &mut self.state {
            SlotState::Ready(vm) => vm.run(request),
            _ => {
                let reply = reply_for(EvalOutcome::Unavailable);
                assert(reply@ == reply_model(OutcomeModel::Unavailable));
                reply
            },
        }
    }

    /// Records how the creation of the context ended.
    pub fn settle(&mut self, built: Result<VM, EngineError>)
        ensures
            final(self).state() == Self::settled(old(self).state(), built),
    {
        if self.is_empty() {
            match built {
                Ok(vm) => {
                    self.state = SlotState::Ready(vm);
                },
                Err(_) => {
                    self.state = SlotState::Failed;
                },
            }
        }
    }

    /// Makes sure that the slot has been through the creation of its
    /// context, and says whether it holds one.
    ///
    /// A slot that holds a context, and one that has failed, are left as
    /// they are.  An empty slot creates its context over `host` and holds it
    /// from then on, with its stack bounded and the bridge installed, or is
    /// failed from then on.
    pub fn get_or_create<H>(&mut self, host: H) -> (r: Result<(), EngineError>) where
        H: Fn(HostCall) -> Result<HostValue, String> + 'static,

        requires
            forall|request: HostCall| call_requires(host, (request,)),
        ensures
            !(old(self).state() is Empty) ==> final(self).state() == old(self).state(),
            !(final(self).state() is Empty),
            r is Ok <==> final(self).state() is Ready,
            old(self).state() is Empty ==> (final(self).state() matches SlotState::Ready(vm)
                ==> vm.stack_limit() == STACK_SIZE && vm.globals().contains("redis"@)
                && vm.global_members("redis"@) == seq!["call"@]),
            r matches Err(e) ==> e == EngineError::Unavailable,
    {
        if self.is_empty() {
            let built = VM::new(host);
            self.settle(built);
        }
        match &self.state {
            SlotState::Ready(_) => Ok(()),
            _ => Err(EngineError::Unavailable),
        }
    }
}

/// What a worker does with one job: obtains its context, evaluates the
/// request, and resolves the parked caller with the reply.
///
/// A job whose caller still waits always ends in exactly one delivery, to
/// that caller, whatever happened on the way; without an engine the reply
/// is the error that says so.  A job whose caller was answered before is
/// refused and not run.
pub fn run_job<C, H>(slot: &mut EngineSlot, job: Job<C>, host: H) -> (r: Result<
    Delivery<C>,
    ResolveError,
>) where H: Fn(HostCall) -> Result<HostValue, String> + 'static
    requires
        forall|request: HostCall| call_requires(host, (request,)),
    ensures
        !(old(slot).state() is Empty) ==> same_phase(old(slot).state(), final(slot).state()),
        match job.reply.waiting() {
            None => {
                &&& r == Err::<Delivery<C>, ResolveError>(ResolveError::AlreadyResolved)
                &&& final(slot).state() == old(slot).state()
            },
            Some(caller) => {
                &&& r matches Ok(delivery)
                &&& delivery.caller == caller
                &&& !(final(slot).state() is Empty)
                &&& exists|outcome: OutcomeModel|
                    delivery.reply@ == reply_model(outcome) && (outcome is Unavailable <==> !(
                    final(slot).state() is Ready))
            },
        },
{
    let Job { request, reply } = job;
    let mut reply = reply;
    if !reply.is_pending() {
        return Err(ResolveError::AlreadyResolved);
    }
    let _ = slot.get_or_create(host);
    let answer: Reply = slot.evaluate(&request);
    reply.resolve(answer)
}

} // verus!
