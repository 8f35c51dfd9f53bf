//! One execution context: an instance of the script engine with a bounded
//! stack, the host call bridge installed, and the evaluation of a request
//! in it.
//!
//! Globals that a script creates stay in the context and are seen by later
//! requests that run in it; only `KEYS` and `ARGV` are bound afresh for
//! every evaluation.  An evaluation runs to its end: nothing here can stop a
//! script that does not return.

use vstd::prelude::*;
use vstd::string::StringExecFns;
use crate::codec::{decode, encode};
use crate::engine::{
    bound_names, caught_text, context_full, context_install, context_members, context_names,
    context_with, eval_script, global_define, is_entered, runtime_new,
    runtime_set_max_stack_size, stack_limit_of,
};
use crate::marshal::{reply_of, to_host_reply};
use crate::redisjs::HostCall;
use crate::reply::{Reply, ReplyModel};
use crate::request::{copy_range, wrap_code, wrapped, ExecutionRequest, RequestModel};
use crate::value::{
    lemma_script_array_view, script_models, texts, HostValue, ScriptModel, ScriptValue,
};

verus! {

/// The stack, in bytes, that scripts of one context may use.
pub const STACK_SIZE: usize = 262144;

/// The stack, in bytes, set aside for one level of nesting of a value that
/// crosses the boundary.
pub const FRAME_SIZE: usize = 1024;

/// An execution context.
pub struct VM {
    _runtime: rquickjs::Runtime,
    ctx: rquickjs::Context,
}

/// One global that is bound before a script runs: its name, and the texts
/// of the array it is bound to.
#[derive(Debug, PartialEq, Eq)]
pub struct Binding {
    pub name: String,
    pub items: Vec<String>,
}

/// Mathematical model of a [`Binding`].
pub struct BindingModel {
    pub name: Seq<char>,
    pub items: Seq<Seq<char>>,
}

impl View for Binding {
    type V = BindingModel;

    open spec fn view(&self) -> BindingModel {
        BindingModel { name: self.name@, items: texts(self.items@) }
    }
}

/// What is handed to the engine for one request: the globals to bind, in
/// order, and the text to evaluate.
#[derive(Debug, PartialEq, Eq)]
pub struct EvalPlan {
    pub bindings: Vec<Binding>,
    pub source: String,
}

/// Mathematical model of an [`EvalPlan`].
pub struct EvalPlanModel {
    pub bindings: Seq<BindingModel>,
    pub source: Seq<char>,
}

impl View for EvalPlan {
    type V = EvalPlanModel;

    open spec fn view(&self) -> EvalPlanModel {
        EvalPlanModel {
            bindings: Seq::new(self.bindings@.len(), |i: int| self.bindings@[i]@),
            source: self.source@,
        }
    }
}

/// The plan for a request: `KEYS` is bound to the request's keys, `ARGV` to
/// its arguments, and the wrapped code is evaluated.
pub open spec fn planned_evaluation(request: RequestModel) -> EvalPlanModel {
    EvalPlanModel {
        bindings: seq![
            BindingModel { name: "KEYS"@, items: request.keys },
            BindingModel { name: "ARGV"@, items: request.args },
        ],
        source: wrapped(request.code),
    }
}

/// The engine could not be set up.
#[derive(Debug, PartialEq, Eq, Structural, Clone, Copy)]
pub enum EngineError {
    Unavailable,
}

/// How an evaluation ended.
#[derive(Debug, PartialEq, Eq)]
pub enum EvalOutcome {
    /// The script returned a value.
    Returned(ScriptValue),
    /// The script threw, or the engine failed; with the engine's message.
    Failed(String),
    /// There was no engine to run the script.
    Unavailable,
}

/// Mathematical model of an [`EvalOutcome`].
pub enum OutcomeModel {
    Returned(ScriptModel),
    Failed(Seq<char>),
    Unavailable,
}

impl View for EvalOutcome {
    type V = OutcomeModel;

    open spec fn view(&self) -> OutcomeModel {
        match self {
            EvalOutcome::Returned(script) => OutcomeModel::Returned(script@),
            EvalOutcome::Failed(message) => OutcomeModel::Failed(message@),
            EvalOutcome::Unavailable => OutcomeModel::Unavailable,
        }
    }
}

/// The message of the reply to a request that found no engine.
pub open spec fn unavailable_message() -> Seq<char> {
    "ERR engine not initialized"@
}

/// The reply that an outcome calls for: the converted value, or a failure
/// with the engine's message, or the failure that says there is no engine.
pub open spec fn reply_model(outcome: OutcomeModel) -> ReplyModel {
    match outcome {
        OutcomeModel::Returned(script) => ReplyModel::Value(reply_of(script)),
        OutcomeModel::Failed(message) => ReplyModel::Failure(message),
        OutcomeModel::Unavailable => ReplyModel::Failure(unavailable_message()),
    }
}

/// The nesting budget that a stack of `stack_size` bytes allows.
pub open spec fn nesting_budget(stack_size: nat) -> nat {
    stack_size / (FRAME_SIZE as nat)
}

/// Makes the reply to the parked caller out of an evaluation's outcome.
pub fn reply_for(outcome: EvalOutcome) -> (r: Reply)
    ensures
        r@ == reply_model(outcome@),
{
    match outcome {
        EvalOutcome::Returned(script) => Reply::Value(to_host_reply(&script)),
        EvalOutcome::Failed(message) => Reply::Failure(message),
        EvalOutcome::Unavailable => Reply::Failure(String::from_str("ERR engine not initialized")),
    }
}

/// The script value for a list of texts: the array of the strings, in
/// order.
pub open spec fn strings_model(items: Seq<Seq<char>>) -> ScriptModel {
    ScriptModel::Array(Seq::new(items.len(), |i: int| ScriptModel::String(items[i])))
}

/// Makes the array of strings that a script sees for a list of texts.
pub fn strings_value(items: &Vec<String>) -> (r: ScriptValue)
    ensures
        r@ == strings_model(texts(items@)),
{
    let mut values: Vec<ScriptValue> = Vec::new();
    let mut i: usize = 0;
    while i < items.len()
        invariant
            0 <= i <= items.len(),
            values@.len() == i,
            forall|j: int|
                0 <= j < i ==> (#[trigger] values@[j])@ == ScriptModel::String(items@[j]@),
        decreases items.len() - i,
    {
        values.push(ScriptValue::String(items[i].clone()));
        i = i + 1;
    }
    proof {
        lemma_script_array_view(values);
        assert(script_models(values@) =~= strings_model(texts(items@))->Array_0);
    }
    ScriptValue::Array(values)
}

/// Plans the evaluation of a request.
pub fn plan_evaluation(request: &ExecutionRequest) -> (plan: EvalPlan)
    ensures
        plan@ == planned_evaluation(request@),
{
    let keys = Binding {
        name: String::from_str("KEYS"),
        items: copy_range(&request.keys, 0, request.keys.len()),
    };
    let args = Binding {
        name: String::from_str("ARGV"),
        items: copy_range(&request.args, 0, request.args.len()),
    };
    let mut bindings: Vec<Binding> = Vec::new();
    bindings.push(keys);
    bindings.push(args);
    let plan = EvalPlan { bindings, source: wrap_code(request.code.as_str()) };
    proof {
        assert(texts(request.keys@).subrange(0, request.keys@.len() as int) =~= texts(
            request.keys@,
        ));
        assert(texts(request.args@).subrange(0, request.args@.len() as int) =~= texts(
            request.args@,
        ));
        assert(plan@.bindings =~= planned_evaluation(request@).bindings);
    }
    plan
}

/// Binds the global `name` to an array of `items`.
fn bind_strings<'js>(ctx: &mut rquickjs::Ctx<'js>, name: &str, items: &Vec<String>) -> (r: Result<
    (),
    rquickjs::Error,
>)
    ensures
        r is Ok ==> bound_names(*final(ctx)).contains(name@),
{
    match encode(ctx, &strings_value(items), 1) {
        Ok(array) => global_define(ctx, name, &array),
        Err(e) => Err(e),
    }
}

/// Evaluates a request in an entered context.
///
/// Binds the globals of the request's plan, evaluates the plan's text,
/// reads the result within `budget`, and makes the reply.  A script that
/// throws, and any failure of the engine, ends in an error reply with the
/// engine's message, never in a fault.
pub fn evaluate<'js>(ctx: &mut rquickjs::Ctx<'js>, request: &ExecutionRequest, budget: usize) -> (r:
    Reply)
    ensures
        exists|outcome: OutcomeModel| r@ == reply_model(outcome) && !(outcome is Unavailable),
{
    let plan: EvalPlan = plan_evaluation(request);
    let mut stopped: Option<rquickjs::Error> = None;
    let mut i: usize = 0;
    while i < plan.bindings.len() && stopped.is_none()
        invariant
            0 <= i <= plan.bindings.len(),
        decreases plan.bindings.len() - i,
    {
        let binding: &Binding = &plan.bindings[i];
        match bind_strings(ctx, binding.name.as_str(), &binding.items) {
            Ok(()) => {},
            Err(e) => {
                stopped = Some(e);
            },
        }
        i = i + 1;
    }
    let outcome: EvalOutcome = match stopped {
        Some(e) => EvalOutcome::Failed(caught_text(ctx, e)),
        None => match eval_script(ctx, plan.source.as_str()) {
            Err(e) => EvalOutcome::Failed(caught_text(ctx, e)),
            Ok(value) => match decode(ctx, &value, budget) {
                Ok(script) => EvalOutcome::Returned(script),
                Err(e) => EvalOutcome::Failed(String::from_str(e.message())),
            },
        },
    };
    let ghost model = outcome@;
    let reply = reply_for(outcome);
    assert(reply@ == reply_model(model) && !(model is Unavailable));
    reply
}

impl VM {
    /// The stack, in bytes, that scripts of this context may use.
    pub closed spec fn stack_limit(&self) -> nat {
        stack_limit_of(self._runtime)
    }

    /// The names of the own properties of the context's global object.
    pub closed spec fn globals(&self) -> Set<Seq<char>> {
        context_names(self.ctx)
    }

    /// The names of the own members of what the global `name` holds.
    pub closed spec fn global_members(&self, name: Seq<char>) -> Seq<Seq<char>> {
        context_members(self.ctx, name)
    }

    /// True when `ctx` is this context, entered: it holds what the context
    /// holds.
    pub closed spec fn is_entered_as(&self, ctx: rquickjs::Ctx) -> bool {
        is_entered(self.ctx, ctx)
    }

    /// Sets up a context: allocates the engine, bounds its stack to
    /// [`STACK_SIZE`], and installs the host call bridge over `host`.
    /// Any failure on the way is reported, not raised.  A context that is
    /// returned has the bridge: its global `redis` holds an object with the
    /// one member `call`.
    pub fn new<H>(host: H) -> (r: Result<VM, EngineError>) where
        H: Fn(HostCall) -> Result<HostValue, String> + 'static,

        requires
            forall|request: HostCall| call_requires(host, (request,)),
        ensures
            r matches Ok(vm) ==> vm.stack_limit() == STACK_SIZE,
            r matches Ok(vm) ==> vm.globals().contains("redis"@),
            r matches Ok(vm) ==> vm.global_members("redis"@) == seq!["call"@],
    {
        let mut runtime = match runtime_new() {
            Ok(runtime) => runtime,
            Err(_) => {
                return Err(EngineError::Unavailable);
            },
        };
        runtime_set_max_stack_size(&mut runtime, STACK_SIZE);
        let mut ctx = match context_full(&runtime) {
            Ok(ctx) => ctx,
            Err(_) => {
                return Err(EngineError::Unavailable);
            },
        };
        let budget: usize = STACK_SIZE / FRAME_SIZE;
        match context_install(&mut runtime, &mut ctx, host, budget) {
            Ok(()) => Ok(VM { _runtime: runtime, ctx }),
            Err(_) => Err(EngineError::Unavailable),
        }
    }

    /// Enters the context, calls `f` once with it, and returns what `f`
    /// returned.  What `f` is given is this context, entered.  The context
    /// is borrowed exclusively for the call, so `f` cannot enter it a second
    /// time.  The stack limit stays as it was; what the context holds is
    /// what `f` left in it.
    pub fn eval<F, R>(&mut self, f: F) -> (r: R) where F: FnOnce(rquickjs::Ctx) -> R
        requires
            forall|ctx: rquickjs::Ctx| call_requires(f, (ctx,)),
        ensures
            exists|ctx: rquickjs::Ctx| call_ensures(f, (ctx,), r) && old(self).is_entered_as(ctx),
            final(self).stack_limit() == old(self).stack_limit(),
    {
        let ghost before = self.ctx;
        let ghost function = f;
        let r = context_with(&mut self._runtime, &mut self.ctx, f);
        proof {
            let ctx = choose|ctx: rquickjs::Ctx|
                call_ensures(function, (ctx,), r) && is_entered(before, ctx);
            assert(call_ensures(function, (ctx,), r) && old(self).is_entered_as(ctx));
        }
        r
    }

    /// The nesting budget for values that cross this context's boundary:
    /// what a stack of [`STACK_SIZE`] bytes allows.
    pub fn budget(&self) -> (r: usize)
        ensures
            r == nesting_budget(STACK_SIZE as nat),
    {
        STACK_SIZE / FRAME_SIZE
    }

    /// Evaluates a request in this context and makes the reply.
    pub fn run(&mut self, request: &ExecutionRequest) -> (r: Reply)
        ensures
            exists|outcome: OutcomeModel| r@ == reply_model(outcome) && !(outcome is Unavailable),
            final(self).stack_limit() == old(self).stack_limit(),
    {
        let budget: usize = self.budget();
        let body = |entered: rquickjs::Ctx| -> (reply: Reply)
            ensures
                exists|outcome: OutcomeModel|
                    reply@ == reply_model(outcome) && !(outcome is Unavailable),
            {
                let mut entered = entered;
                evaluate(&mut entered, request, budget)
            };
        self.eval(body)
    }
}

} // verus!
