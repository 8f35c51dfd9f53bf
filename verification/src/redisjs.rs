//! The host call bridge: the one operation that scripts may ask of the
//! host, `redis.call(command, argument...)`.
//!
//! A call is planned from the script's arguments, handed to the host, and
//! its answer is converted for the script.  Every failure on the way, a
//! missing command name, an argument without text, an error of the host,
//! is thrown into the script as an error that it may catch.

use vstd::prelude::*;
use vstd::string::StringExecFns;
use crate::codec::{decode, encode, is_writable};
use crate::engine::{
    bound_members, bound_names, function_new, global_define, object_new, throw_message,
    value_define, value_own_names,
};
use crate::marshal::{script_of, text_of, to_host_args, to_script, MarshalError};
use crate::value::{
    script_depth, script_models, texts, HostValue, ScriptModel, ScriptValue,
};

verus! {

/// One operation asked of the host: its name and its arguments.
#[derive(Debug, PartialEq, Eq)]
pub struct HostCall {
    pub command: String,
    pub args: Vec<String>,
}

/// Mathematical model of a [`HostCall`].
pub struct HostCallModel {
    pub command: Seq<char>,
    pub args: Seq<Seq<char>>,
}

impl View for HostCall {
    type V = HostCallModel;

    open spec fn view(&self) -> HostCallModel {
        HostCallModel { command: self.command@, args: texts(self.args@) }
    }
}

/// Why no operation was asked of the host.
#[derive(Debug, PartialEq, Eq, Structural, Clone, Copy)]
pub enum BridgeError {
    /// The script passed no arguments, so there is no command name.
    MissingCommand,
    /// The argument at `index` has no text.
    NotText { index: usize },
}

impl BridgeError {
    /// The message of the error that is thrown into the script.
    pub fn message(&self) -> (r: &'static str)
        ensures
            r@ == (match self {
                BridgeError::MissingCommand => "redis.call: missing command name"@,
                BridgeError::NotText { .. } => "redis.call: arguments must be strings or numbers"@,
            }),
    {
        match self {
            BridgeError::MissingCommand => "redis.call: missing command name",
            BridgeError::NotText { .. } => "redis.call: arguments must be strings or numbers",
        }
    }
}

/// True when `request` is the operation that the arguments `args` ask for:
/// the first argument names the command, the others follow in order, each
/// as its text.
pub open spec fn is_plan_of(request: HostCallModel, args: Seq<ScriptModel>) -> bool {
    &&& args.len() >= 1
    &&& text_of(args[0]) == Some(request.command)
    &&& request.args.len() == args.len() - 1
    &&& forall|i: int|
        1 <= i < args.len() ==> text_of(#[trigger] args[i]) == Some(request.args[i - 1])
}

/// Plans the host operation that a script's arguments ask for.
///
/// No arguments at all is [`BridgeError::MissingCommand`].  Otherwise the
/// first argument that has no text is reported, and if every argument has
/// one, the plan is made of them.
pub fn plan_call(args: &Vec<ScriptValue>) -> (r: Result<HostCall, BridgeError>)
    ensures
        match r {
            Ok(request) => is_plan_of(request@, script_models(args@)),
            Err(BridgeError::MissingCommand) => args@.len() == 0,
            Err(BridgeError::NotText { index }) => {
                &&& index < args@.len()
                &&& text_of(args@[index as int]@) is None
                &&& forall|i: int| 0 <= i < index ==> text_of(#[trigger] args@[i]@) is Some
            },
        },
{
    if args.len() == 0 {
        return Err(BridgeError::MissingCommand);
    }
    match to_host_args(args) {
        Err(MarshalError::NotText { index }) => Err(BridgeError::NotText { index }),
        Ok(strings) => {
            let mut rest: Vec<String> = strings;
            let ghost all = rest@;
            let command: String = rest.remove(0);
            let request = HostCall { command, args: rest };
            proof {
                let models = script_models(args@);
                assert(request@.args.len() == args@.len() - 1);
                assert forall|i: int| 1 <= i < models.len() implies text_of(#[trigger] models[i])
                    == Some(request@.args[i - 1]) by {
                    assert(text_of(args@[i]@) == Some(all[i]@));
                    assert(rest@[i - 1] == all[i]);
                }
                assert(text_of(args@[0]@) == Some(all[0]@));
            }
            Ok(request)
        },
    }
}

/// Converts the host's answer to an operation for the script: an error of
/// the host, whether it came in place of a value or as a value, is the
/// message to throw.
pub fn settle_call(answer: Result<HostValue, String>) -> (r: Result<ScriptValue, String>)
    ensures
        match answer {
            Err(message) => r == Err::<ScriptValue, String>(message),
            Ok(host) => match r {
                Ok(script) => script_of(host@) == Ok::<ScriptModel, Seq<char>>(script@),
                Err(message) => script_of(host@) == Err::<ScriptModel, Seq<char>>(message@),
            },
        },
{
    match answer {
        Err(message) => Err(message),
        Ok(host) => to_script(&host),
    }
}

/// True when the bridge may return a value for `count` arguments: the
/// arguments were read as `read`, `request` is the operation they ask for,
/// `host` answered it with `answer`, and `answer` converts to a script value
/// that can be written within `budget`.
pub open spec fn is_served<H: Fn(HostCall) -> Result<HostValue, String>>(
    host: &H,
    count: nat,
    budget: usize,
    read: Seq<ScriptModel>,
    request: HostCall,
    answer: HostValue,
) -> bool {
    &&& read.len() == count
    &&& is_plan_of(request@, read)
    &&& call_ensures(host, (request,), Ok::<HostValue, String>(answer))
    &&& script_of(answer@) is Ok
    &&& script_depth(script_of(answer@)->Ok_0) <= budget
    &&& is_writable(script_of(answer@)->Ok_0)
}

/// The bridge itself, as the engine calls it with a script's arguments.
///
/// Reads the arguments, plans the operation, asks `host` for it, and
/// returns the converted answer.  Whatever fails is thrown into the script;
/// the bridge never answers the parked caller itself.  A value is returned
/// only when the host was asked for the operation that the arguments plan
/// and answered with a value that could be converted and written.
pub fn call<'js, H>(
    ctx: &mut rquickjs::Ctx<'js>,
    args: &Vec<rquickjs::Value<'js>>,
    host: &H,
    budget: usize,
) -> (r: Result<rquickjs::Value<'js>, rquickjs::Error>) where
    H: Fn(HostCall) -> Result<HostValue, String>,

    requires
        forall|request: HostCall| call_requires(host, (request,)),
    ensures
        args@.len() == 0 ==> r is Err,
        r is Ok ==> exists|read: Seq<ScriptModel>, request: HostCall, answer: HostValue|
            is_served(host, args@.len(), budget, read, request, answer),
{
    let mut read: Vec<ScriptValue> = Vec::new();
    let mut i: usize = 0;
    while i < args.len()
        invariant
            0 <= i <= args.len(),
            read@.len() == i,
        decreases args.len() - i,
    {
        match decode(ctx, &args[i], budget) {
            Ok(value) => {
                read.push(value);
            },
            Err(e) => {
                return Err(throw_message(ctx, e.message()));
            },
        }
        i = i + 1;
    }
    let request: HostCall = match plan_call(&read) {
        Ok(request) => request,
        Err(e) => {
            return Err(throw_message(ctx, e.message()));
        },
    };
    let ghost asked = request;
    let answer: Result<HostValue, String> = host(request);
    let ghost answered = answer;
    match settle_call(answer) {
        Ok(script) => {
            let written = encode(ctx, &script, budget);
            proof {
                if written is Ok {
                    assert(is_served(
                        host,
                        args@.len(),
                        budget,
                        script_models(read@),
                        asked,
                        answered->Ok_0,
                    ));
                }
            }
            written
        },
        Err(message) => Err(throw_message(ctx, message.as_str())),
    }
}

/// Whether the names that were listed are there, and are `name` alone.
pub fn is_only(listed: &Option<Vec<String>>, name: &str) -> (r: bool)
    ensures
        r == (listed matches Some(names) && texts(names@) == seq![name@]),
{
    match listed {
        Some(names) => {
            if names.len() == 1 {
                let same: bool = names[0] == String::from_str(name);
                proof {
                    if same {
                        assert(texts(names@) =~= seq![name@]);
                    } else {
                        assert(texts(names@)[0] == names@[0]@);
                    }
                }
                same
            } else {
                proof {
                    assert(texts(names@).len() != seq![name@].len());
                }
                false
            }
        },
        None => false,
    }
}

/// Installs the bridge in a context: defines the global `redis` as an
/// object whose one member, `call`, is [`call`] with `host` and `budget`.
///
/// The members of the object are listed once it is in place, and the
/// installation fails unless `call` is the only one.  When it succeeds, the
/// global object has the property `redis`, and what it holds has the member
/// `call` and no other.
pub fn init<'js, H>(ctx: &mut rquickjs::Ctx<'js>, host: H, budget: usize) -> (r: Result<
    (),
    rquickjs::Error,
>) where H: Fn(HostCall) -> Result<HostValue, String> + 'static
    requires
        forall|request: HostCall| call_requires(host, (request,)),
    ensures
        r is Ok ==> bound_names(*final(ctx)).contains("redis"@),
        r is Ok ==> bound_members(*final(ctx), "redis"@) == seq!["call"@],
{
    let redis = match object_new(ctx) {
        Ok(object) => object,
        Err(e) => {
            return Err(e);
        },
    };
    let function = match function_new(ctx, host, budget) {
        Ok(function) => function,
        Err(e) => {
            return Err(e);
        },
    };
    match value_define(ctx, &redis, "call", function) {
        Ok(()) => {},
        Err(e) => {
            return Err(e);
        },
    }
    match global_define(ctx, "redis", &redis) {
        Ok(()) => {},
        Err(e) => {
            return Err(e);
        },
    }
    let listed: Option<Vec<String>> = value_own_names(ctx, &redis);
    if is_only(&listed, "call") {
        Ok(())
    } else {
        Err(throw_message(ctx, "redis.call could not be installed"))
    }
}

} // verus!
