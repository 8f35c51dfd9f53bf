//! The two value universes that meet at the marshaling boundary.
//!
//! A [`HostValue`] is what the host hands to, or accepts from, this library.
//! A [`ScriptValue`] is what a script produces or receives.  Both are plain
//! trees; each has a mathematical model ([`HostModel`], [`ScriptModel`]) that
//! the contracts of the marshaler are stated over.
//!
//! Floating-point numbers are carried as their decimal text and are never
//! interpreted here.

use vstd::prelude::*;

verus! {

/// A value of the host.
#[derive(Debug, PartialEq, Eq)]
pub enum HostValue {
    /// The host's null reply.
    Null,
    /// The absence of any reply.
    NoReply,
    Bool(bool),
    Integer(i64),
    /// A floating-point number, as decimal text.
    Float(String),
    SimpleString(String),
    BulkString(String),
    Array(Vec<HostValue>),
    /// An error value of the host, carrying its message.
    Error(String),
    /// A value that the other side has no counterpart for: from the host,
    /// any kind that scripts do not have; towards the host, the marker for
    /// a script value that the host does not have.
    Unsupported,
}

/// Mathematical model of a [`HostValue`].
pub enum HostModel {
    Null,
    NoReply,
    Bool(bool),
    Integer(int),
    Float(Seq<char>),
    SimpleString(Seq<char>),
    BulkString(Seq<char>),
    Array(Seq<HostModel>),
    Error(Seq<char>),
    Unsupported,
}

impl View for HostValue {
    type V = HostModel;

    open spec fn view(&self) -> HostModel
        decreases self,
    {
        match self {
            HostValue::Null => HostModel::Null,
            HostValue::NoReply => HostModel::NoReply,
            HostValue::Bool(b) => HostModel::Bool(*b),
            HostValue::Integer(i) => HostModel::Integer(*i as int),
            HostValue::Float(text) => HostModel::Float(text@),
            HostValue::SimpleString(s) => HostModel::SimpleString(s@),
            HostValue::BulkString(s) => HostModel::BulkString(s@),
            HostValue::Array(items) => HostModel::Array(
                Seq::new(
                    items@.len(),
                    |i: int|
                        if 0 <= i < items@.len() {
                            items@[i].view()
                        } else {
                            HostModel::Null
                        },
                ),
            ),
            HostValue::Error(message) => HostModel::Error(message@),
            HostValue::Unsupported => HostModel::Unsupported,
        }
    }
}

/// A value of the script engine.
#[derive(Debug, PartialEq, Eq)]
pub enum ScriptValue {
    Null,
    Undefined,
    Bool(bool),
    /// An integer.  The engine itself holds integers of 32 bits; a larger
    /// one reaches a script as a floating-point number.
    Int(i64),
    /// A floating-point number, as decimal text.
    Float(String),
    String(String),
    Array(Vec<ScriptValue>),
    /// Any kind of script value that the host has no counterpart for
    /// (objects, functions, symbols and the like).
    Unsupported,
}

/// Mathematical model of a [`ScriptValue`].
pub enum ScriptModel {
    Null,
    Undefined,
    Bool(bool),
    Int(int),
    Float(Seq<char>),
    String(Seq<char>),
    Array(Seq<ScriptModel>),
    Unsupported,
}

impl View for ScriptValue {
    type V = ScriptModel;

    open spec fn view(&self) -> ScriptModel
        decreases self,
    {
        match self {
            ScriptValue::Null => ScriptModel::Null,
            ScriptValue::Undefined => ScriptModel::Undefined,
            ScriptValue::Bool(b) => ScriptModel::Bool(*b),
            ScriptValue::Int(i) => ScriptModel::Int(*i as int),
            ScriptValue::Float(text) => ScriptModel::Float(text@),
            ScriptValue::String(s) => ScriptModel::String(s@),
            ScriptValue::Array(items) => ScriptModel::Array(
                Seq::new(
                    items@.len(),
                    |i: int|
                        if 0 <= i < items@.len() {
                            items@[i].view()
                        } else {
                            ScriptModel::Null
                        },
                ),
            ),
            ScriptValue::Unsupported => ScriptModel::Unsupported,
        }
    }
}

/// The models of the elements of a vector of host values, in order.
pub open spec fn host_models(items: Seq<HostValue>) -> Seq<HostModel> {
    Seq::new(items.len(), |i: int| items[i]@)
}

/// The models of the elements of a vector of script values, in order.
pub open spec fn script_models(items: Seq<ScriptValue>) -> Seq<ScriptModel> {
    Seq::new(items.len(), |i: int| items[i]@)
}

/// The views of the elements of a vector of strings, in order.
pub open spec fn texts(items: Seq<String>) -> Seq<Seq<char>> {
    Seq::new(items.len(), |i: int| items[i]@)
}

/// The view of a text that may be missing.
pub open spec fn text_model(text: Option<String>) -> Option<Seq<char>> {
    match text {
        Some(t) => Some(t@),
        None => None,
    }
}

/// The model of an array is the sequence of the models of its elements.
pub proof fn lemma_host_array_view(items: Vec<HostValue>)
    ensures
        HostValue::Array(items)@ == HostModel::Array(host_models(items@)),
{
    assert(HostValue::Array(items)@->Array_0 =~= host_models(items@));
}

/// The model of an array is the sequence of the models of its elements.
pub proof fn lemma_script_array_view(items: Vec<ScriptValue>)
    ensures
        ScriptValue::Array(items)@ == ScriptModel::Array(script_models(items@)),
{
    assert(ScriptValue::Array(items)@->Array_0 =~= script_models(items@));
}

/// How deeply arrays are nested in a script value: 0 for a scalar, one more
/// than the deepest element for an array.
pub open spec fn script_depth(value: ScriptModel) -> nat
    decreases value, 0nat,
{
    match value {
        ScriptModel::Array(items) => 1 + script_depth_upto(items, items.len()),
        _ => 0,
    }
}

/// The greatest [`script_depth`] among the first `n` elements of `items`.
pub open spec fn script_depth_upto(items: Seq<ScriptModel>, n: nat) -> nat
    decreases items, n,
{
    if n == 0 || n > items.len() {
        0
    } else {
        let rest: nat = script_depth_upto(items, (n - 1) as nat);
        let last: nat = script_depth(items[n - 1]);
        if last > rest {
            last
        } else {
            rest
        }
    }
}

} // verus!
