//! The script engine, as far as this library relies on it.
//!
//! Everything in this file is trusted rather than proved: each function
//! makes one call into the engine and hands the result back.  Engine values
//! are opaque here.  What a value is for good, its kind and its content as
//! a boolean, a number or a string, has a name, and the reads and the
//! constructors are held to those names.  What a script computes has none.
//!
//! What a context holds is modelled by the value of its handle.  A function
//! that may run code of a script, or may change what the context holds,
//! therefore borrows the context exclusively, and says of the context
//! afterwards only what the engine itself brings about: properties are
//! defined, never assigned, and members are listed, never asked for.

use rquickjs::Type;
use vstd::prelude::*;
use crate::redisjs::{call, init, HostCall};
use crate::value::{text_model, texts, HostValue};

verus! {

/// The engine's runtime: its heap and its limits.
#[verifier::external_type_specification]
#[verifier::external_body]
pub struct ExRuntime(rquickjs::Runtime);

/// One set of global bindings within a runtime.
#[verifier::external_type_specification]
#[verifier::external_body]
pub struct ExContext(rquickjs::Context);

/// A context that is entered and may be used.
#[verifier::external_type_specification]
#[verifier::external_body]
pub struct ExCtx<'js>(rquickjs::Ctx<'js>);

/// Any value of the engine.
#[verifier::external_type_specification]
#[verifier::external_body]
pub struct ExValue<'js>(rquickjs::Value<'js>);

/// An error of the engine.  When it is an exception, the thrown value waits
/// in the context.
#[verifier::external_type_specification]
#[verifier::external_body]
pub struct ExError(rquickjs::Error);

/// The kinds of value that the engine tells apart.
#[derive(Debug, PartialEq, Eq, Structural, Clone, Copy)]
pub enum ScriptKind {
    Uninitialized,
    Undefined,
    Null,
    Bool,
    Int,
    Float,
    String,
    Symbol,
    Array,
    Constructor,
    Function,
    Promise,
    Exception,
    Proxy,
    Object,
    Module,
    BigInt,
    Unknown,
}

/// The stack, in bytes, that scripts of a runtime may use, as it was last
/// set.
pub uninterp spec fn stack_limit_of(runtime: rquickjs::Runtime) -> nat;

/// The names of the own properties of the global object of a context that
/// is entered.
pub uninterp spec fn bound_names(ctx: rquickjs::Ctx) -> Set<Seq<char>>;

/// The names of the own members of the value that the own property `name`
/// of the global object of an entered context holds.
pub uninterp spec fn bound_members(ctx: rquickjs::Ctx, name: Seq<char>) -> Seq<Seq<char>>;

/// The names of the own members, with text for a name, of a value as an
/// entered context holds it, in the engine's order; none for a value that
/// is no object.
pub uninterp spec fn member_names(ctx: rquickjs::Ctx, value: rquickjs::Value) -> Seq<Seq<char>>;

/// [`bound_names`] of a context, as it is when it is next entered.
pub uninterp spec fn context_names(context: rquickjs::Context) -> Set<Seq<char>>;

/// [`bound_members`] of a context, as it is when it is next entered.
pub uninterp spec fn context_members(context: rquickjs::Context, name: Seq<char>) -> Seq<
    Seq<char>,
>;

/// True when an entered context holds what `context` holds: such is the
/// context that [`context_with`] hands to its function.
pub open spec fn is_entered(context: rquickjs::Context, ctx: rquickjs::Ctx) -> bool {
    &&& bound_names(ctx) == context_names(context)
    &&& forall|name: Seq<char>| #[trigger]
        bound_members(ctx, name) == context_members(context, name)
}

/// Whether a value is a proxy.  A value is one for good or never.
pub uninterp spec fn is_proxy_of(value: rquickjs::Value) -> bool;

/// The kind of a value that is no proxy.  Such a value keeps its kind.
pub uninterp spec fn kind_of(value: rquickjs::Value) -> ScriptKind;

/// The boolean that a value is, if it is one.
pub uninterp spec fn bool_of(value: rquickjs::Value) -> Option<bool>;

/// The 32-bit integer that a value is, if it is one.
pub uninterp spec fn int_of(value: rquickjs::Value) -> Option<i32>;

/// The decimal text of the floating-point number that a value is, if it is
/// one.
pub uninterp spec fn float_text_of(value: rquickjs::Value) -> Option<Seq<char>>;

/// The text of the string that a value is, if it is one and is well-formed
/// text.
pub uninterp spec fn string_of(value: rquickjs::Value) -> Option<Seq<char>>;

/// The largest stack limit that the engine takes as it is given.
pub const MAX_STACK_LIMIT: usize = 16777216;

/// `Runtime::new`: allocates a runtime, or reports why it could not.
#[verifier::external_body]
pub(crate) fn runtime_new() -> (r: Result<rquickjs::Runtime, rquickjs::Error>) {
    rquickjs::Runtime::new()
}

/// `Runtime::set_max_stack_size`: bounds the stack that scripts may use.
/// A limit of up to [`MAX_STACK_LIMIT`] is set as given; above that the
/// engine sets no limit.  The engine panics if the runtime is entered; the
/// exclusive borrow rules that out.
#[verifier::external_body]
pub(crate) fn runtime_set_max_stack_size(runtime: &mut rquickjs::Runtime, limit: usize)
    ensures
        limit <= MAX_STACK_LIMIT ==> stack_limit_of(*final(runtime)) == limit,
{
    runtime.set_max_stack_size(limit)
}

/// `Context::full`: creates a context with all standard intrinsics, or
/// reports why it could not.  The engine panics if the runtime is entered;
/// while it is, [`context_with`] holds the runtime exclusively.
#[verifier::external_body]
pub(crate) fn context_full(runtime: &rquickjs::Runtime) -> (r: Result<
    rquickjs::Context,
    rquickjs::Error,
>) {
    rquickjs::Context::full(runtime)
}

/// `Context::with`: enters the context, calls `f` once with it, and returns
/// what `f` returned.  What `f` is given holds what the context held.  The
/// engine panics if the runtime is entered twice at a time; the exclusive
/// borrows of the runtime and of its context keep `f` from reaching either.
/// The runtime is left as it was; `f` may have changed what the context
/// holds.
#[verifier::external_body]
pub(crate) fn context_with<F, R>(
    runtime: &mut rquickjs::Runtime,
    context: &mut rquickjs::Context,
    f: F,
) -> (r: R) where F: FnOnce(rquickjs::Ctx) -> R
    requires
        forall|ctx: rquickjs::Ctx| call_requires(f, (ctx,)),
    ensures
        exists|ctx: rquickjs::Ctx| call_ensures(f, (ctx,), r) && is_entered(*old(context), ctx),
        *final(runtime) == *old(runtime),
{
    context.with(f)
}

/// `Context::with`, for [`init`]: enters the context and installs the host
/// call bridge in it.  The context holds afterwards what `init` left in it,
/// so what `init` promises of an entered context holds of this one.
#[verifier::external_body]
pub(crate) fn context_install<H>(
    runtime: &mut rquickjs::Runtime,
    context: &mut rquickjs::Context,
    host: H,
    budget: usize,
) -> (r: Result<(), rquickjs::Error>) where H: Fn(HostCall) -> Result<HostValue, String> + 'static
    requires
        forall|request: HostCall| call_requires(host, (request,)),
    ensures
        r is Ok ==> context_names(*final(context)).contains("redis"@),
        r is Ok ==> context_members(*final(context), "redis"@) == seq!["call"@],
        *final(runtime) == *old(runtime),
{
    context.with(|mut ctx| init(&mut ctx, host, budget))
}

/// `Ctx::eval`: evaluates `source` as a global script and returns its
/// completion value, or the error that stopped it.  Does not return while
/// the script runs.  The script may change whatever the context holds.
#[verifier::external_body]
pub(crate) fn eval_script<'js>(ctx: &mut rquickjs::Ctx<'js>, source: &str) -> (r: Result<
    rquickjs::Value<'js>,
    rquickjs::Error,
>) {
    ctx.eval(source)
}

/// `Ctx::globals`, then `Object::prop`: defines the own property `name` of
/// the global object as a plain one (writable, enumerable, configurable)
/// that holds `value`.  Defining, unlike assigning, calls no setter and asks
/// no prototype.  When it succeeds the global object has the property, and
/// the property holds that very value.
#[verifier::external_body]
pub(crate) fn global_define<'js>(
    ctx: &mut rquickjs::Ctx<'js>,
    name: &str,
    value: &rquickjs::Value<'js>,
) -> (r: Result<(), rquickjs::Error>)
    ensures
        r is Ok ==> bound_names(*final(ctx)).contains(name@),
        r is Ok ==> bound_members(*final(ctx), name@) == member_names(*final(ctx), *value),
{
    let plain = rquickjs::object::Property::from(value.clone());
    ctx.globals().prop(name, plain.writable().enumerable().configurable())
}

/// `CaughtError::from_error`, then its `Display`: takes the pending
/// exception, if `error` is one, out of the context and describes it;
/// describes `error` itself otherwise.
#[verifier::external_body]
pub(crate) fn caught_text<'js>(ctx: &mut rquickjs::Ctx<'js>, error: rquickjs::Error) -> (r:
    String) {
    rquickjs::CaughtError::from_error(ctx, error).to_string()
}

/// `Exception::throw_message`: makes an error object with `message` the
/// pending exception of the context and returns the error that says so.
#[verifier::external_body]
pub(crate) fn throw_message<'js>(ctx: &mut rquickjs::Ctx<'js>, message: &str) -> (r:
    rquickjs::Error) {
    rquickjs::Exception::throw_message(ctx, message)
}

/// `Object::new`: a new empty object, as a value.  It is no proxy.
#[verifier::external_body]
pub(crate) fn object_new<'js>(ctx: &rquickjs::Ctx<'js>) -> (r: Result<
    rquickjs::Value<'js>,
    rquickjs::Error,
>)
    ensures
        r matches Ok(object) ==> !is_proxy_of(object),
{
    rquickjs::Object::new(ctx.clone()).map(|object| object.into_value())
}

/// `Object::prop`: defines the own member `name` of `target`, which must be
/// an object, as a plain one that holds `value`.  The context that `target`
/// lives in is changed by it, and is borrowed exclusively.
#[verifier::external_body]
pub(crate) fn value_define<'js>(
    _ctx: &mut rquickjs::Ctx<'js>,
    target: &rquickjs::Value<'js>,
    name: &str,
    value: rquickjs::Value<'js>,
) -> (r: Result<(), rquickjs::Error>) {
    let plain = rquickjs::object::Property::from(value);
    rquickjs::Object::from_value(target.clone())?.prop(name, plain.writable().enumerable().configurable())
}

/// `Object::own_keys`: the names of the own members of `value` that have
/// text for a name, if `value` is an object and every name could be read.
/// For a value that is no proxy the engine lists them itself and runs no
/// code of a script, so the context is left as it was.
#[verifier::external_body]
pub(crate) fn value_own_names<'js>(_ctx: &rquickjs::Ctx<'js>, value: &rquickjs::Value<'js>) -> (r:
    Option<Vec<String>>)
    requires
        !is_proxy_of(*value),
    ensures
        r matches Some(names) ==> texts(names@) == member_names(*_ctx, *value),
{
    let filter = rquickjs::object::Filter::new().string();
    value.as_object().and_then(|object| object.own_keys(filter).collect::<rquickjs::Result<_>>().ok())
}

/// `Object::get`: the member `name` of `value`, if `value` is an object
/// and reading the member did not throw.  Reading a member may run a getter
/// of the script, so the context that `value` lives in is borrowed
/// exclusively.
#[verifier::external_body]
pub(crate) fn value_property<'js>(
    _ctx: &mut rquickjs::Ctx<'js>,
    value: &rquickjs::Value<'js>,
    name: &str,
) -> (r: Option<rquickjs::Value<'js>>) {
    value.as_object().and_then(|object| object.get(name).ok())
}

/// `Function::new`: a function of the engine that, when a script calls it,
/// runs [`call`] on the script's arguments with `host` and `budget`.
#[verifier::external_body]
pub(crate) fn function_new<'js, H>(ctx: &rquickjs::Ctx<'js>, host: H, budget: usize) -> (r: Result<
    rquickjs::Value<'js>,
    rquickjs::Error,
>) where H: Fn(HostCall) -> Result<HostValue, String> + 'static
    requires
        forall|request: HostCall| call_requires(host, (request,)),
{
    rquickjs::Function::new(
        ctx.clone(),
        move |mut ctx: rquickjs::Ctx<'js>, args: rquickjs::function::Rest<rquickjs::Value<'js>>|
            call(&mut ctx, &args.0, &host, budget),
    ).map(|function| function.into_value())
}

/// `Value::is_proxy`: whether `value` is a proxy.
#[verifier::external_body]
pub(crate) fn value_is_proxy<'js>(value: &rquickjs::Value<'js>) -> (r: bool)
    ensures
        r == is_proxy_of(*value),
{
    value.is_proxy()
}

/// `Value::type_of`: the kind of `value`.  Asked of values that are no
/// proxy: a proxy answers for what it stands before, and may change it.
#[verifier::external_body]
pub(crate) fn value_kind<'js>(value: &rquickjs::Value<'js>) -> (r: ScriptKind)
    requires
        !is_proxy_of(*value),
    ensures
        r == kind_of(*value),
{
    match value.type_of() {
        Type::Uninitialized => ScriptKind::Uninitialized,
        Type::Undefined => ScriptKind::Undefined,
        Type::Null => ScriptKind::Null, Type::Bool => ScriptKind::Bool,
        Type::Int => ScriptKind::Int, Type::Float => ScriptKind::Float,
        Type::String => ScriptKind::String, Type::Symbol => ScriptKind::Symbol,
        Type::Array => ScriptKind::Array, Type::Constructor => ScriptKind::Constructor,
        Type::Function => ScriptKind::Function, Type::Promise => ScriptKind::Promise,
        Type::Exception => ScriptKind::Exception, Type::Proxy => ScriptKind::Proxy,
        Type::Object => ScriptKind::Object, Type::Module => ScriptKind::Module,
        Type::BigInt => ScriptKind::BigInt, Type::Unknown => ScriptKind::Unknown,
    }
}

/// `Value::as_bool`: the boolean that `value` is, if it is one.
#[verifier::external_body]
pub(crate) fn value_bool<'js>(value: &rquickjs::Value<'js>) -> (r: Option<bool>)
    ensures
        r == bool_of(*value),
{
    value.as_bool()
}

/// `Value::as_int`: the 32-bit integer that `value` is, if it is one.
#[verifier::external_body]
pub(crate) fn value_int<'js>(value: &rquickjs::Value<'js>) -> (r: Option<i32>)
    ensures
        r == int_of(*value),
{
    value.as_int()
}

/// `Value::as_float`: the decimal text of the floating-point number that
/// `value` is, if it is one.
#[verifier::external_body]
pub(crate) fn value_float_text<'js>(value: &rquickjs::Value<'js>) -> (r: Option<String>)
    ensures
        text_model(r) == float_text_of(*value),
{
    value.as_float().map(|number| number.to_string())
}

/// `Value::as_string`, then `String::to_string`: the text of the string
/// that `value` is, if it is one and is well-formed text.
#[verifier::external_body]
pub(crate) fn value_string<'js>(value: &rquickjs::Value<'js>) -> (r: Option<String>)
    ensures
        text_model(r) == string_of(*value),
{
    value.as_string().and_then(|string| string.to_string().ok())
}

/// `Array::get`: the element at `index` of the array that `value` is, if it
/// is one and reading the element did not throw.  Reading an element may
/// run code of the script, so the context that `value` lives in is borrowed
/// exclusively.
#[verifier::external_body]
pub(crate) fn array_item<'js>(
    _ctx: &mut rquickjs::Ctx<'js>,
    value: &rquickjs::Value<'js>,
    index: u32,
) -> (r: Option<rquickjs::Value<'js>>) {
    value.as_array().and_then(|array| array.get(index as usize).ok())
}

/// `Value::new_null`: the null value.
#[verifier::external_body]
pub(crate) fn new_null<'js>(ctx: &rquickjs::Ctx<'js>) -> (r: rquickjs::Value<'js>)
    ensures
        !is_proxy_of(r),
        kind_of(r) is Null,
{
    rquickjs::Value::new_null(ctx.clone())
}

/// `Value::new_undefined`: the undefined value.
#[verifier::external_body]
pub(crate) fn new_undefined<'js>(ctx: &rquickjs::Ctx<'js>) -> (r: rquickjs::Value<'js>)
    ensures
        !is_proxy_of(r),
        kind_of(r) is Undefined,
{
    rquickjs::Value::new_undefined(ctx.clone())
}

/// `Value::new_bool`: a boolean value.
#[verifier::external_body]
pub(crate) fn new_bool<'js>(ctx: &rquickjs::Ctx<'js>, value: bool) -> (r: rquickjs::Value<'js>)
    ensures
        !is_proxy_of(r),
        kind_of(r) is Bool,
        bool_of(r) == Some(value),
{
    rquickjs::Value::new_bool(ctx.clone(), value)
}

/// `IntoJs::into_js` of a 64-bit integer: a number of the engine, an
/// integer where 32 bits hold it and a floating-point number otherwise.
#[verifier::external_body]
pub(crate) fn new_integer<'js>(ctx: &rquickjs::Ctx<'js>, value: i64) -> (r: Result<
    rquickjs::Value<'js>,
    rquickjs::Error,
>)
    ensures
        r matches Ok(number) ==> !is_proxy_of(number),
        r matches Ok(number) ==> (i32::MIN <= value <= i32::MAX ==> kind_of(number) is Int
            && int_of(number) == Some(value as i32)),
        r matches Ok(number) ==> (!(i32::MIN <= value <= i32::MAX) ==> kind_of(number) is Float),
{
    rquickjs::IntoJs::into_js(value, ctx)
}

/// `Value::new_float`: the floating-point value that `text` spells, if it
/// spells one.
#[verifier::external_body]
pub(crate) fn new_float<'js>(ctx: &rquickjs::Ctx<'js>, text: &str) -> (r: Option<
    rquickjs::Value<'js>,
>) {
    text.parse().ok().map(|number| rquickjs::Value::new_float(ctx.clone(), number))
}

/// `String::from_str`: a string value with the given text.
#[verifier::external_body]
pub(crate) fn new_string<'js>(ctx: &rquickjs::Ctx<'js>, text: &str) -> (r: Result<
    rquickjs::Value<'js>,
    rquickjs::Error,
>)
    ensures
        r matches Ok(string) ==> !is_proxy_of(string) && kind_of(string) is String && string_of(
            string,
        ) == Some(text@),
{
    rquickjs::String::from_str(ctx.clone(), text).map(|string| string.into_value())
}

/// `IntoJs::into_js` of a vector of values: an array with these elements,
/// in order.
#[verifier::external_body]
pub(crate) fn new_array<'js>(ctx: &mut rquickjs::Ctx<'js>, items: Vec<rquickjs::Value<'js>>) -> (r:
    Result<rquickjs::Value<'js>, rquickjs::Error>) {
    rquickjs::IntoJs::into_js(items, ctx)
}

} // verus!
