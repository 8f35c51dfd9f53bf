//! Reading engine values into [`ScriptValue`]s and writing them back.
//!
//! Engine values may be nested without bound, and may even contain
//! themselves.  Both directions therefore work within a nesting budget and
//! fail, in the manner of a stack overflow, when a value is nested more
//! deeply than the budget allows.

use vstd::prelude::*;
use crate::engine::{
    array_item, bool_of, float_text_of, int_of, is_proxy_of, kind_of, new_array, new_bool,
    new_float, new_integer, new_null, new_string, new_undefined, string_of, throw_message,
    value_bool, value_float_text, value_int, value_is_proxy, value_kind, value_property,
    value_string, ScriptKind,
};
use crate::value::{
    lemma_script_array_view, script_depth, script_depth_upto, script_models, text_model,
    ScriptModel, ScriptValue,
};

verus! {

/// Why an engine value could not be read or written.
#[derive(Debug, PartialEq, Eq, Structural, Clone, Copy)]
pub enum CodecError {
    /// The value is nested more deeply than the budget allows.
    TooDeep,
    /// A string of the engine is not well-formed text.
    BadString,
    /// An array of the engine could not be read element by element.
    BadArray,
    /// A floating-point text does not spell a number.
    BadNumber,
    /// The value is of a kind that has no counterpart in the engine.
    Unsupported,
}

impl CodecError {
    /// The text under which the failure is reported.
    pub fn message(&self) -> (r: &'static str)
        ensures
            r@ == (match self {
                CodecError::TooDeep => "stack overflow: value is nested too deeply"@,
                CodecError::BadString => "string is not well-formed text"@,
                CodecError::BadArray => "array could not be read"@,
                CodecError::BadNumber => "text does not spell a number"@,
                CodecError::Unsupported => "unsupported type"@,
            }),
    {
        match self {
            CodecError::TooDeep => "stack overflow: value is nested too deeply",
            CodecError::BadString => "string is not well-formed text",
            CodecError::BadArray => "array could not be read",
            CodecError::BadNumber => "text does not spell a number",
            CodecError::Unsupported => "unsupported type",
        }
    }
}

/// Adding an element to a sequence raises the greatest depth to that of the
/// new element, or leaves it.
proof fn lemma_depth_upto_push(items: Seq<ScriptModel>, item: ScriptModel)
    ensures
        script_depth_upto(items.push(item), items.len() + 1) == (if script_depth(item)
            > script_depth_upto(items, items.len()) {
            script_depth(item)
        } else {
            script_depth_upto(items, items.len())
        }),
{
    let longer = items.push(item);
    lemma_depth_upto_prefix(longer, items, items.len());
}

/// The greatest depth among the first `n` elements depends on those
/// elements alone.
proof fn lemma_depth_upto_prefix(a: Seq<ScriptModel>, b: Seq<ScriptModel>, n: nat)
    requires
        n <= a.len(),
        n <= b.len(),
        forall|i: int| 0 <= i < n ==> a[i] == b[i],
    ensures
        script_depth_upto(a, n) == script_depth_upto(b, n),
    decreases n,
{
    if n > 0 {
        lemma_depth_upto_prefix(a, b, (n - 1) as nat);
    }
}

/// True for the script values that the engine can hold as they are: every
/// integer in them fits 32 bits.
pub open spec fn fits_engine(script: ScriptModel) -> bool
    decreases script,
{
    match script {
        ScriptModel::Int(i) => i32::MIN <= i <= i32::MAX,
        ScriptModel::Array(items) => forall|i: int|
            0 <= i < items.len() ==> fits_engine(#[trigger] items[i]),
        _ => true,
    }
}

/// True for the script values that can be written into the engine: none of
/// their parts is [`ScriptValue::Unsupported`].
pub open spec fn is_writable(script: ScriptModel) -> bool
    decreases script,
{
    match script {
        ScriptModel::Unsupported => false,
        ScriptModel::Array(items) => forall|i: int|
            0 <= i < items.len() ==> is_writable(#[trigger] items[i]),
        _ => true,
    }
}

/// The script value that stands for an engine value of kind `kind` that is no
/// array, given what the engine yielded as its boolean, its integer and its
/// text.  Null is null; undefined, and the engine's markers for a missing
/// value, are undefined; a boolean, an integer, a floating-point number and
/// a string are themselves; a string without well-formed text is an error;
/// every other kind, and a value whose content the engine withheld, is
/// unsupported.
pub open spec fn scalar_model(
    kind: ScriptKind,
    boolean: Option<bool>,
    integer: Option<i32>,
    text: Option<Seq<char>>,
) -> Result<ScriptModel, CodecError> {
    match kind {
        ScriptKind::Null => Ok(ScriptModel::Null),
        ScriptKind::Undefined => Ok(ScriptModel::Undefined),
        ScriptKind::Uninitialized => Ok(ScriptModel::Undefined),
        ScriptKind::Unknown => Ok(ScriptModel::Undefined),
        ScriptKind::Bool => match boolean {
            Some(b) => Ok(ScriptModel::Bool(b)),
            None => Ok(ScriptModel::Unsupported),
        },
        ScriptKind::Int => match integer {
            Some(i) => Ok(ScriptModel::Int(i as int)),
            None => Ok(ScriptModel::Unsupported),
        },
        ScriptKind::Float => match text {
            Some(t) => Ok(ScriptModel::Float(t)),
            None => Ok(ScriptModel::Unsupported),
        },
        ScriptKind::String => match text {
            Some(t) => Ok(ScriptModel::String(t)),
            None => Err(CodecError::BadString),
        },
        ScriptKind::Array => Err(CodecError::BadArray),
        _ => Ok(ScriptModel::Unsupported),
    }
}

/// The length that the engine reported for an array, if it is one that can
/// be walked: an integer that is not negative.
pub open spec fn length_model(reported: Option<i32>) -> Result<u32, CodecError> {
    match reported {
        Some(n) => if n >= 0 {
            Ok(n as u32)
        } else {
            Err(CodecError::BadArray)
        },
        None => Err(CodecError::BadArray),
    }
}

/// Makes the script value for an engine value that is no array out of what
/// the engine yielded for it.
pub fn scalar_of(
    kind: ScriptKind,
    boolean: Option<bool>,
    integer: Option<i32>,
    text: Option<String>,
) -> (r: Result<ScriptValue, CodecError>)
    ensures
        match r {
            Ok(script) => scalar_model(kind, boolean, integer, text_model(text)) == Ok::<
                ScriptModel,
                CodecError,
            >(script@),
            Err(e) => scalar_model(kind, boolean, integer, text_model(text)) == Err::<
                ScriptModel,
                CodecError,
            >(e),
        },
{
    match kind {
        ScriptKind::Null => Ok(ScriptValue::Null),
        ScriptKind::Undefined | ScriptKind::Uninitialized | ScriptKind::Unknown => Ok(
            ScriptValue::Undefined,
        ),
        ScriptKind::Bool => match boolean {
            Some(b) => Ok(ScriptValue::Bool(b)),
            None => Ok(ScriptValue::Unsupported),
        },
        ScriptKind::Int => match integer {
            Some(i) => Ok(ScriptValue::Int(i as i64)),
            None => Ok(ScriptValue::Unsupported),
        },
        ScriptKind::Float => match text {
            Some(t) => Ok(ScriptValue::Float(t)),
            None => Ok(ScriptValue::Unsupported),
        },
        ScriptKind::String => match text {
            Some(t) => Ok(ScriptValue::String(t)),
            None => Err(CodecError::BadString),
        },
        ScriptKind::Array => Err(CodecError::BadArray),
        _ => Ok(ScriptValue::Unsupported),
    }
}

/// Checks the length that the engine reported for an array.
pub fn length_of(reported: Option<i32>) -> (r: Result<u32, CodecError>)
    ensures
        r == length_model(reported),
{
    match reported {
        Some(n) => if n >= 0 {
            Ok(n as u32)
        } else {
            Err(CodecError::BadArray)
        },
        None => Err(CodecError::BadArray),
    }
}

/// What reading an engine value that is no array yields: a proxy is
/// unsupported, and every other value is what [`scalar_model`] makes of its
/// kind and of the content that the engine holds for that kind.
pub open spec fn read_model(value: rquickjs::Value) -> Result<ScriptModel, CodecError> {
    if is_proxy_of(value) {
        Ok(ScriptModel::Unsupported)
    } else {
        scalar_model(
            kind_of(value),
            bool_of(value),
            int_of(value),
            match kind_of(value) {
                ScriptKind::Float => float_text_of(value),
                ScriptKind::String => string_of(value),
                _ => None,
            },
        )
    }
}

/// True when an engine value is an array that is walked element by
/// element: it is no proxy and its kind is that of an array.
pub open spec fn is_walked(value: rquickjs::Value) -> bool {
    !is_proxy_of(value) && kind_of(value) is Array
}

/// True when `written` is what writing the script value `script` must
/// give: for null, undefined, a boolean, an integer and a string, an engine
/// value of that kind and content.  An integer beyond 32 bits is a
/// floating-point number of the engine.
pub open spec fn written_as(script: ScriptModel, written: rquickjs::Value) -> bool {
    &&& !(script is Float || script is Array || script is Unsupported) ==> !is_proxy_of(written)
    &&& match script {
        ScriptModel::Null => kind_of(written) is Null,
        ScriptModel::Undefined => kind_of(written) is Undefined,
        ScriptModel::Bool(b) => kind_of(written) is Bool && bool_of(written) == Some(b),
        ScriptModel::Int(i) => if i32::MIN <= i <= i32::MAX {
            kind_of(written) is Int && int_of(written) == Some(i as i32)
        } else {
            kind_of(written) is Float
        },
        ScriptModel::String(text) => kind_of(written) is String && string_of(written) == Some(
            text,
        ),
        _ => true,
    }
}

/// Reads an engine value.
///
/// A proxy is never read: it is unsupported.  A value that is no array is
/// read as [`scalar_of`] says, from its kind and the content that the
/// engine holds for that kind.  An array is read element by element, up to
/// the length that [`length_of`] accepts.  A value that is read is nested at
/// most `budget` deep, and fits the engine; one that is nested more deeply,
/// or that contains itself, is refused as too deep.  Reading an array may
/// run code of the script, so the context that the value lives in is
/// borrowed exclusively.
pub fn decode<'js>(
    ctx: &mut rquickjs::Ctx<'js>,
    value: &rquickjs::Value<'js>,
    budget: usize,
) -> (r: Result<ScriptValue, CodecError>)
    ensures
        r matches Ok(script) ==> script_depth(script@) <= budget && fits_engine(script@),
        r matches Err(e) ==> e is TooDeep || e is BadString || e is BadArray,
        !is_walked(*value) ==> (match r {
            Ok(script) => read_model(*value) == Ok::<ScriptModel, CodecError>(script@),
            Err(e) => read_model(*value) == Err::<ScriptModel, CodecError>(e),
        }),
        is_walked(*value) ==> (r matches Ok(script) ==> script@ is Array),
        is_walked(*value) && budget == 0 ==> r == Err::<ScriptValue, CodecError>(
            CodecError::TooDeep,
        ),
    decreases budget,
{
    if value_is_proxy(value) {
        return Ok(ScriptValue::Unsupported);
    }
    let kind: ScriptKind = value_kind(value);
    match kind {
        ScriptKind::Array => {
            if budget == 0 {
                return Err(CodecError::TooDeep);
            }
            let reported: Option<i32> = match value_property(ctx, value, "length") {
                Some(property) => value_int(&property),
                None => None,
            };
            let length: u32 = match length_of(reported) {
                Ok(length) => length,
                Err(e) => {
                    return Err(e);
                },
            };
            let mut items: Vec<ScriptValue> = Vec::new();
            let mut i: u32 = 0;
            while i < length
                invariant
                    0 <= i <= length,
                    budget > 0,
                    is_walked(*value),
                    items@.len() == i,
                    script_depth_upto(script_models(items@), items@.len()) <= budget - 1,
                    forall|j: int| 0 <= j < items@.len() ==> fits_engine(#[trigger] items@[j]@),
                decreases length - i,
            {
                let item: ScriptValue = match array_item(ctx, value, i) {
                    Some(element) => match decode(ctx, &element, budget - 1) {
                        Ok(item) => item,
                        Err(e) => {
                            return Err(e);
                        },
                    },
                    None => {
                        return Err(CodecError::BadArray);
                    },
                };
                proof {
                    lemma_depth_upto_push(script_models(items@), item@);
                    assert(script_models(items@.push(item)) =~= script_models(items@).push(
                        item@,
                    ));
                }
                items.push(item);
                i = i + 1;
            }
            proof {
                lemma_script_array_view(items);
            }
            Ok(ScriptValue::Array(items))
        },
        _ => {
            let boolean: Option<bool> = match kind {
                ScriptKind::Bool => value_bool(value),
                _ => None,
            };
            let integer: Option<i32> = match kind {
                ScriptKind::Int => value_int(value),
                _ => None,
            };
            let text: Option<String> = match kind {
                ScriptKind::Float => value_float_text(value),
                ScriptKind::String => value_string(value),
                _ => None,
            };
            scalar_of(kind, boolean, integer, text)
        },
    }
}

/// Writes a script value into the engine.
///
/// An integer becomes a number of the engine; a floating-point text
/// becomes the number it spells; an array is written element by element.
/// Null, undefined and booleans are always written.  When the value cannot
/// be written, by a part that is [`ScriptValue::Unsupported`], by a text
/// that spells no number, or by nesting deeper than `budget`, an error that
/// says so is thrown in the engine and returned; so is an error of the
/// engine itself.  What is written is as [`written_as`] says.
pub fn encode<'js>(ctx: &mut rquickjs::Ctx<'js>, value: &ScriptValue, budget: usize) -> (r:
    Result<rquickjs::Value<'js>, rquickjs::Error>)
    ensures
        r is Ok ==> script_depth(value@) <= budget && is_writable(value@),
        value@ is Null || value@ is Undefined || value@ is Bool ==> r is Ok,
        r matches Ok(written) ==> written_as(value@, written),
    decreases value,
{
    match value {
        ScriptValue::Null => Ok(new_null(ctx)),
        ScriptValue::Undefined => Ok(new_undefined(ctx)),
        ScriptValue::Bool(b) => Ok(new_bool(ctx, *b)),
        ScriptValue::Int(i) => new_integer(ctx, *i),
        ScriptValue::Float(text) => match new_float(ctx, text.as_str()) {
            Some(number) => Ok(number),
            None => Err(throw_message(ctx, CodecError::BadNumber.message())),
        },
        ScriptValue::String(text) => new_string(ctx, text.as_str()),
        ScriptValue::Array(items) => {
            if budget == 0 {
                return Err(throw_message(ctx, CodecError::TooDeep.message()));
            }
            let ghost models = script_models(items@);
            let mut written: Vec<rquickjs::Value<'js>> = Vec::new();
            let mut i: usize = 0;
            proof {
                lemma_script_array_view(*items);
            }
            while i < items.len()
                invariant
                    0 <= i <= items.len(),
                    budget > 0,
                    *value == ScriptValue::Array(*items),
                    models == script_models(items@),
                    value@ == ScriptModel::Array(models),
                    script_depth_upto(models, i as nat) <= budget - 1,
                    forall|j: int| 0 <= j < i ==> is_writable(#[trigger] models[j]),
                decreases items.len() - i,
            {
                proof {
                    assert(decreases_to!(*value => value->Array_0));
                }
                match encode(ctx, &items[i], budget - 1) {
                    Ok(item) => {
                        written.push(item);
                    },
                    Err(e) => {
                        return Err(e);
                    },
                }
                i = i + 1;
            }
            new_array(ctx, written)
        },
        ScriptValue::Unsupported => Err(throw_message(ctx, CodecError::Unsupported.message())),
    }
}

} // verus!
