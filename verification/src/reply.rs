//! The asynchronous reply protocol: a caller is parked while its request
//! runs, and is handed its result exactly once.

use vstd::prelude::*;
use crate::value::{HostModel, HostValue};

verus! {

/// A parked caller that awaits a result.
///
/// The handle is pending from [`PendingReply::park`] until the first
/// [`PendingReply::resolve`], which takes the caller out of it; it is
/// resolved ever after.
pub struct PendingReply<C> {
    caller: Option<C>,
}

/// What a caller is answered with: the value that its script returned, or
/// the failure of the evaluation with its message.  A failure is an error
/// reply; a value is never one, whatever it holds.
#[derive(Debug, PartialEq, Eq)]
pub enum Reply {
    Value(HostValue),
    Failure(String),
}

/// Mathematical model of a [`Reply`].
pub enum ReplyModel {
    Value(HostModel),
    Failure(Seq<char>),
}

impl View for Reply {
    type V = ReplyModel;

    open spec fn view(&self) -> ReplyModel {
        match self {
            Reply::Value(value) => ReplyModel::Value(value@),
            Reply::Failure(message) => ReplyModel::Failure(message@),
        }
    }
}

/// A result on its way to the caller that asked for it.
pub struct Delivery<C> {
    pub caller: C,
    pub reply: Reply,
}

/// Why a handle could not be resolved.
#[derive(Debug, PartialEq, Eq, Structural, Clone, Copy)]
pub enum ResolveError {
    /// The handle's caller has already been handed a result.
    AlreadyResolved,
}

impl<C> PendingReply<C> {
    /// The caller that still waits, if the handle is pending.
    pub closed spec fn waiting(&self) -> Option<C> {
        self.caller
    }

    /// What resolving this handle with `reply` delivers.
    pub open spec fn delivery(&self, reply: Reply) -> Result<Delivery<C>, ResolveError> {
        match self.waiting() {
            Some(caller) => Ok(Delivery { caller, reply }),
            None => Err(ResolveError::AlreadyResolved),
        }
    }

    /// Parks `caller`.
    pub fn park(caller: C) -> (handle: Self)
        ensures
            handle.waiting() == Some(caller),
    {
        PendingReply { caller: Some(caller) }
    }

    /// Whether the caller still waits.
    pub fn is_pending(&self) -> (r: bool)
        ensures
            r == self.waiting().is_some(),
    {
        self.caller.is_some()
    }

    /// Hands `reply` to the parked caller.
    ///
    /// The first call yields the delivery for the caller that was parked and
    /// leaves the handle resolved; every later call is refused.
    pub fn resolve(&mut self, reply: Reply) -> (r: Result<Delivery<C>, ResolveError>)
        ensures
            r == old(self).delivery(reply),
            final(self).waiting().is_none(),
    {
        match self.caller.take() {
            Some(caller) => Ok(Delivery { caller, reply }),
            None => Err(ResolveError::AlreadyResolved),
        }
    }
}

/// Each of two parked callers is handed its own result, whichever handle is
/// resolved first, and neither can be handed a second one.
pub proof fn lemma_no_cross_delivery<C>(
    first: PendingReply<C>,
    second: PendingReply<C>,
    a: C,
    b: C,
    reply_a: Reply,
    reply_b: Reply,
)
    requires
        first.waiting() == Some(a),
        second.waiting() == Some(b),
    ensures
        first.delivery(reply_a) == Ok::<Delivery<C>, ResolveError>(
            Delivery { caller: a, reply: reply_a },
        ),
        second.delivery(reply_b) == Ok::<Delivery<C>, ResolveError>(
            Delivery { caller: b, reply: reply_b },
        ),
        forall|resolved: PendingReply<C>, again: Reply|
            resolved.waiting().is_none() ==> #[trigger] resolved.delivery(again)
                == Err::<Delivery<C>, ResolveError>(ResolveError::AlreadyResolved),
{
}

} // verus!
