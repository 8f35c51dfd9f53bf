//! The value marshaler: the exact mapping between host values and script
//! values, in both directions.
//!
//! | host                        | script          |
//! |-----------------------------|-----------------|
//! | null, no reply              | null            |
//! | boolean                     | boolean         |
//! | integer                     | integer         |
//! | floating point              | floating point  |
//! | simple string, bulk string  | string          |
//! | array                       | array, element by element |
//! | error                       | a thrown error with the same message |
//! | anything else               | null            |
//!
//! Towards the host, a script's null and undefined are the host's null, a
//! string is a bulk string, and a value of any other kind than those in the
//! table is [`HostValue::Unsupported`], the marker that the host is told
//! under the text of [`unsupported_text`].

use vstd::prelude::*;
use vstd::string::StringExecFns;
use crate::value::{
    host_models, lemma_host_array_view, lemma_script_array_view, script_models, HostModel,
    HostValue, ScriptModel, ScriptValue,
};

verus! {

/// The text under which the host is told of a value that has no host
/// counterpart.
pub open spec fn unsupported_message() -> Seq<char> {
    "unsupported type"@
}

/// The text under which the host is told of [`HostValue::Unsupported`].
pub fn unsupported_text() -> (r: &'static str)
    ensures
        r@ == unsupported_message(),
{
    "unsupported type"
}

/// The script value that a host value becomes, or the message of the error
/// that is thrown in its place.  Within an array the first error, in order,
/// is the one thrown.
pub open spec fn script_of(host: HostModel) -> Result<ScriptModel, Seq<char>>
    decreases host, 0nat,
{
    match host {
        HostModel::Null => Ok(ScriptModel::Null),
        HostModel::NoReply => Ok(ScriptModel::Null),
        HostModel::Bool(b) => Ok(ScriptModel::Bool(b)),
        HostModel::Integer(i) => Ok(ScriptModel::Int(i)),
        HostModel::Float(text) => Ok(ScriptModel::Float(text)),
        HostModel::SimpleString(s) => Ok(ScriptModel::String(s)),
        HostModel::BulkString(s) => Ok(ScriptModel::String(s)),
        HostModel::Array(items) => match scripts_of(items, items.len()) {
            Ok(converted) => Ok(ScriptModel::Array(converted)),
            Err(message) => Err(message),
        },
        HostModel::Error(message) => Err(message),
        HostModel::Unsupported => Ok(ScriptModel::Null),
    }
}

/// [`script_of`] applied to the first `n` elements of `items`, in order.
pub open spec fn scripts_of(items: Seq<HostModel>, n: nat) -> Result<
    Seq<ScriptModel>,
    Seq<char>,
>
    decreases items, n,
{
    if n == 0 || n > items.len() {
        Ok(Seq::empty())
    } else {
        match scripts_of(items, (n - 1) as nat) {
            Err(message) => Err(message),
            Ok(converted) => match script_of(items[n - 1]) {
                Err(message) => Err(message),
                Ok(value) => Ok(converted.push(value)),
            },
        }
    }
}

/// The host value that a script value becomes.
pub open spec fn reply_of(script: ScriptModel) -> HostModel
    decreases script,
{
    match script {
        ScriptModel::Null => HostModel::Null,
        ScriptModel::Undefined => HostModel::Null,
        ScriptModel::Bool(b) => HostModel::Bool(b),
        ScriptModel::Int(i) => HostModel::Integer(i),
        ScriptModel::Float(text) => HostModel::Float(text),
        ScriptModel::String(s) => HostModel::BulkString(s),
        ScriptModel::Array(items) => HostModel::Array(
            Seq::new(
                items.len(),
                |i: int|
                    if 0 <= i < items.len() {
                        reply_of(items[i])
                    } else {
                        HostModel::Null
                    },
            ),
        ),
        ScriptModel::Unsupported => HostModel::Unsupported,
    }
}

/// The character for the decimal digit `d`.
pub open spec fn digit_char(d: int) -> char
    recommends
        0 <= d <= 9,
{
    (48 + d) as u8 as char
}

/// The decimal numeral of a natural number, without leading zeros.
pub open spec fn decimal_of_nat(n: nat) -> Seq<char>
    decreases n,
{
    if n < 10 {
        seq![digit_char(n as int)]
    } else {
        decimal_of_nat(n / 10).push(digit_char((n % 10) as int))
    }
}

/// The decimal numeral of an integer, with a leading `-` if it is negative.
pub open spec fn decimal_of(i: int) -> Seq<char> {
    if i < 0 {
        seq!['-'] + decimal_of_nat((-i) as nat)
    } else {
        decimal_of_nat(i as nat)
    }
}

/// The text that stands for a script value among the arguments of a host
/// operation: a string is itself, a number is its decimal text, and no other
/// kind of value has one.
pub open spec fn text_of(script: ScriptModel) -> Option<Seq<char>> {
    match script {
        ScriptModel::String(s) => Some(s),
        ScriptModel::Int(i) => Some(decimal_of(i)),
        ScriptModel::Float(text) => Some(text),
        _ => None,
    }
}

/// Why a value could not cross the boundary.
#[derive(Debug, PartialEq, Eq, Structural, Clone, Copy)]
pub enum MarshalError {
    /// The argument at `index` has no text.
    NotText { index: usize },
}

/// Converts a host value for a script.  `Err` holds the message of the error
/// that is to be thrown instead.
pub fn to_script(host: &HostValue) -> (r: Result<ScriptValue, String>)
    ensures
        match r {
            Ok(script) => script_of(host@) == Ok::<ScriptModel, Seq<char>>(script@),
            Err(message) => script_of(host@) == Err::<ScriptModel, Seq<char>>(message@),
        },
    decreases host,
{
    match host {
        HostValue::Null => Ok(ScriptValue::Null),
        HostValue::NoReply => Ok(ScriptValue::Null),
        HostValue::Bool(b) => Ok(ScriptValue::Bool(*b)),
        HostValue::Integer(i) => Ok(ScriptValue::Int(*i)),
        HostValue::Float(text) => Ok(ScriptValue::Float(text.clone())),
        HostValue::SimpleString(s) => Ok(ScriptValue::String(s.clone())),
        HostValue::BulkString(s) => Ok(ScriptValue::String(s.clone())),
        HostValue::Array(items) => {
            let ghost models = host_models(items@);
            let mut converted: Vec<ScriptValue> = Vec::new();
            let mut i: usize = 0;
            proof {
                lemma_host_array_view(*items);
                assert(script_models(converted@) =~= Seq::<ScriptModel>::empty());
            }
            while i < items.len()
                invariant
                    0 <= i <= items.len(),
                    *host == HostValue::Array(*items),
                    host@ == HostModel::Array(models),
                    models == host_models(items@),
                    scripts_of(models, i as nat) == Ok::<Seq<ScriptModel>, Seq<char>>(
                        script_models(converted@),
                    ),
                decreases items.len() - i,
            {
                match to_script(&items[i]) {
                    Ok(value) => {
                        let ghost before = script_models(converted@);
                        converted.push(value);
                        assert(script_models(converted@) =~= before.push(value@));
                    },
                    Err(message) => {
                        proof {
                            lemma_scripts_of_error(models, (i + 1) as nat, items.len() as nat);
                        }
                        return Err(message);
                    },
                }
                i = i + 1;
            }
            proof {
                lemma_script_array_view(converted);
            }
            Ok(ScriptValue::Array(converted))
        },
        HostValue::Error(message) => Err(message.clone()),
        HostValue::Unsupported => Ok(ScriptValue::Null),
    }
}

/// Once a prefix of an array yields an error, every longer prefix yields
/// the same one.
pub proof fn lemma_scripts_of_error(items: Seq<HostModel>, n: nat, m: nat)
    requires
        n <= m <= items.len(),
        scripts_of(items, n) is Err,
    ensures
        scripts_of(items, m) == scripts_of(items, n),
    decreases m,
{
    if n < m {
        lemma_scripts_of_error(items, n, (m - 1) as nat);
    }
}

/// Converts a script value for the host.
pub fn to_host_reply(script: &ScriptValue) -> (r: HostValue)
    ensures
        r@ == reply_of(script@),
    decreases script,
{
    match script {
        ScriptValue::Null => HostValue::Null,
        ScriptValue::Undefined => HostValue::Null,
        ScriptValue::Bool(b) => HostValue::Bool(*b),
        ScriptValue::Int(i) => HostValue::Integer(*i),
        ScriptValue::Float(text) => HostValue::Float(text.clone()),
        ScriptValue::String(s) => HostValue::BulkString(s.clone()),
        ScriptValue::Array(items) => {
            let mut converted: Vec<HostValue> = Vec::new();
            let mut i: usize = 0;
            while i < items.len()
                invariant
                    0 <= i <= items.len(),
                    *script == ScriptValue::Array(*items),
                    converted@.len() == i,
                    forall|j: int|
                        0 <= j < i ==> (#[trigger] converted@[j])@ == reply_of(items@[j]@),
                decreases items.len() - i,
            {
                proof {
                    assert(decreases_to!(*script => script->Array_0));
                }
                let value: HostValue = to_host_reply(&items[i]);
                converted.push(value);
                i = i + 1;
            }
            proof {
                lemma_script_array_view(*items);
                lemma_host_array_view(converted);
                assert(host_models(converted@) =~= reply_of(script@)->Array_0);
            }
            HostValue::Array(converted)
        },
        ScriptValue::Unsupported => HostValue::Unsupported,
    }
}

/// The text of one decimal digit.
fn digit_text(d: u8) -> (r: &'static str)
    requires
        d <= 9,
    ensures
        r@ == seq![digit_char(d as int)],
{
    proof {
        reveal_strlit("0");
        reveal_strlit("1");
        reveal_strlit("2");
        reveal_strlit("3");
        reveal_strlit("4");
        reveal_strlit("5");
        reveal_strlit("6");
        reveal_strlit("7");
        reveal_strlit("8");
        reveal_strlit("9");
    }
    let r: &'static str = match d {
        0 => "0",
        1 => "1",
        2 => "2",
        3 => "3",
        4 => "4",
        5 => "5",
        6 => "6",
        7 => "7",
        8 => "8",
        _ => "9",
    };
    assert(r@ =~= seq![digit_char(d as int)]);
    r
}

/// Appends the decimal numeral of `n` to `text`.
fn append_decimal(text: &mut String, n: u64)
    ensures
        final(text)@ == old(text)@ + decimal_of_nat(n as nat),
    decreases n,
{
    if n >= 10 {
        append_decimal(text, n / 10);
    }
    let digit: u8 = (n % 10) as u8;
    text.append(digit_text(digit));
    assert(text@ =~= old(text)@ + decimal_of_nat(n as nat));
}

/// The decimal text of an integer.
pub fn decimal_text(i: i64) -> (r: String)
    ensures
        r@ == decimal_of(i as int),
{
    if i < 0 {
        let magnitude: u64 = if i == i64::MIN {
            9223372036854775808u64
        } else {
            (-i) as u64
        };
        let mut text: String = String::from_str("-");
        proof {
            reveal_strlit("-");
        }
        append_decimal(&mut text, magnitude);
        assert(text@ =~= decimal_of(i as int));
        text
    } else {
        let mut text: String = String::new();
        append_decimal(&mut text, i as u64);
        assert(text@ =~= decimal_of(i as int));
        text
    }
}

/// Converts the arguments that a script passes to a host operation into
/// their texts.
///
/// Succeeds exactly when every argument has a text ([`text_of`]); otherwise
/// reports the first argument that has none.
pub fn to_host_args(args: &Vec<ScriptValue>) -> (r: Result<Vec<String>, MarshalError>)
    ensures
        match r {
            Ok(strings) => {
                &&& strings@.len() == args@.len()
                &&& forall|i: int|
                    0 <= i < args@.len() ==> text_of(#[trigger] args@[i]@) == Some(strings@[i]@)
            },
            Err(MarshalError::NotText { index }) => {
                &&& index < args@.len()
                &&& text_of(args@[index as int]@) is None
                &&& forall|i: int| 0 <= i < index ==> text_of(#[trigger] args@[i]@) is Some
            },
        },
{
    let mut strings: Vec<String> = Vec::new();
    let mut i: usize = 0;
    while i < args.len()
        invariant
            0 <= i <= args.len(),
            strings@.len() == i,
            forall|j: int| 0 <= j < i ==> text_of(#[trigger] args@[j]@) == Some(strings@[j]@),
        decreases args.len() - i,
    {
        let text: String = match &args[i] {
            ScriptValue::String(s) => s.clone(),
            ScriptValue::Int(n) => decimal_text(*n),
            ScriptValue::Float(t) => t.clone(),
            _ => {
                return Err(MarshalError::NotText { index: i });
            },
        };
        strings.push(text);
        i = i + 1;
    }
    Ok(strings)
}

/// True for the host scalars that come back from a script as they went in.
/// A simple string is not among them: it comes back as a bulk string.
pub open spec fn is_plain_scalar(host: HostModel) -> bool {
    host is Null || host is Bool || host is Integer || host is Float || host is BulkString
}

/// True for the host values that come back from a script as they went in:
/// the plain scalars, and the arrays of such values.
pub open spec fn is_faithful(host: HostModel) -> bool
    decreases host,
{
    match host {
        HostModel::Array(items) => forall|i: int|
            0 <= i < items.len() ==> is_faithful(#[trigger] items[i]),
        _ => is_plain_scalar(host),
    }
}

/// Round trip, in general: a faithful host value that is converted for a
/// script and converted back is itself.
pub proof fn lemma_round_trip_faithful(host: HostModel)
    requires
        is_faithful(host),
    ensures
        script_of(host) matches Ok(script) && reply_of(script) == host,
    decreases host, 0nat,
{
    match host {
        HostModel::Array(items) => {
            lemma_round_trip_items(items, items.len());
            let converted = scripts_of(items, items.len())->Ok_0;
            assert(reply_of(ScriptModel::Array(converted))->Array_0 =~= items);
        },
        _ => {},
    }
}

/// The first `n` elements of an array of faithful values are converted
/// without loss, and each comes back as itself.
proof fn lemma_round_trip_items(items: Seq<HostModel>, n: nat)
    requires
        n <= items.len(),
        forall|i: int| 0 <= i < items.len() ==> is_faithful(#[trigger] items[i]),
    ensures
        scripts_of(items, n) matches Ok(converted) && converted.len() == n && forall|i: int|
            0 <= i < n ==> reply_of(#[trigger] converted[i]) == items[i],
    decreases items, n,
{
    if n > 0 {
        lemma_round_trip_items(items, (n - 1) as nat);
        lemma_round_trip_faithful(items[n - 1]);
    }
}

/// Round trip: an array of plain scalars that is converted for a script and
/// converted back comes out equal, element by element, in order and in kind.
pub proof fn lemma_round_trip(items: Seq<HostModel>)
    requires
        forall|i: int| 0 <= i < items.len() ==> is_plain_scalar(#[trigger] items[i]),
    ensures
        script_of(HostModel::Array(items)) matches Ok(script) && reply_of(script)
            == HostModel::Array(items),
{
    assert forall|i: int| 0 <= i < items.len() implies is_faithful(#[trigger] items[i]) by {
        assert(is_plain_scalar(items[i]));
    }
    lemma_round_trip_faithful(HostModel::Array(items));
}

} // verus!
