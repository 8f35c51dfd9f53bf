//! The request surface: turning the tokens of a command into an
//! [`ExecutionRequest`], and the script text that is handed to the engine.
//!
//! A command is `NAME code numkeys key... arg...`.  `numkeys` is a canonical
//! decimal count: either `0`, or a digit `1`-`9` followed by digits, with a
//! value that fits a signed 64-bit integer.

use vstd::prelude::*;
use vstd::string::StringExecFns;
use vstd::utf8::encode_utf8;
use crate::value::texts;

verus! {

/// The largest key count a request may name.
pub const MAX_COUNT: u64 = 9223372036854775807u64;

/// One evaluation: the code, and the two argument lists that scripts see as
/// `KEYS` and `ARGV`.  The code may be empty; it then yields no value.
#[derive(Debug, PartialEq, Eq)]
pub struct ExecutionRequest {
    pub code: String,
    pub keys: Vec<String>,
    pub args: Vec<String>,
}

/// Mathematical model of an [`ExecutionRequest`].
pub struct RequestModel {
    pub code: Seq<char>,
    pub keys: Seq<Seq<char>>,
    pub args: Seq<Seq<char>>,
}

impl View for ExecutionRequest {
    type V = RequestModel;

    open spec fn view(&self) -> RequestModel {
        RequestModel { code: self.code@, keys: texts(self.keys@), args: texts(self.args@) }
    }
}

/// Why a command was rejected before any dispatch.
#[derive(Debug, PartialEq, Eq, Structural, Clone, Copy)]
pub enum RequestError {
    /// Fewer than three tokens.
    WrongArity,
    /// The third token is not a key count.
    InvalidNumKeys,
}

/// True for the bytes `0` to `9`.
pub open spec fn is_digit(b: u8) -> bool {
    48 <= b <= 57
}

/// The number that a sequence of decimal digits denotes.
pub open spec fn digits_value(digits: Seq<u8>) -> nat
    decreases digits.len(),
{
    if digits.len() == 0 {
        0
    } else {
        10 * digits_value(digits.drop_last()) + (digits.last() - 48) as nat
    }
}

/// True for a canonical decimal numeral: one or more digits, with no leading
/// zero unless it is the single digit `0`.
pub open spec fn is_numeral(bytes: Seq<u8>) -> bool {
    &&& bytes.len() >= 1
    &&& forall|i: int| 0 <= i < bytes.len() ==> is_digit(#[trigger] bytes[i])
    &&& (bytes[0] != 48 || bytes.len() == 1)
}

/// The key count that `bytes` spells, if it spells one.
pub open spec fn count_of(bytes: Seq<u8>) -> Option<nat> {
    if is_numeral(bytes) && digits_value(bytes) <= MAX_COUNT {
        Some(digits_value(bytes))
    } else {
        None
    }
}

/// The request that well-formed tokens with key count `count` describe: the
/// code is the second token, the keys are the next `count` tokens (or as many
/// as there are), and the arguments are all that follow.
pub open spec fn request_of(tokens: Seq<Seq<char>>, count: nat) -> RequestModel
    recommends
        tokens.len() >= 3,
{
    let taken: int = if count <= tokens.len() - 3 {
        count as int
    } else {
        tokens.len() - 3
    };
    RequestModel {
        code: tokens[1],
        keys: tokens.subrange(3, 3 + taken),
        args: tokens.subrange(3 + taken, tokens.len() as int),
    }
}

/// What parsing `tokens` yields.
pub open spec fn parsed(tokens: Seq<Seq<char>>) -> Result<RequestModel, RequestError> {
    if tokens.len() < 3 {
        Err(RequestError::WrongArity)
    } else {
        match count_of(encode_utf8(tokens[2])) {
            Some(count) => Ok(request_of(tokens, count)),
            None => Err(RequestError::InvalidNumKeys),
        }
    }
}

/// The text evaluated for `code`: the code as the body of a function that is
/// called at once, so that `return` yields the result.
pub open spec fn wrapped(code: Seq<char>) -> Seq<char> {
    "(function(){"@ + code + "})();"@
}

/// A longer run of digits denotes a number at least as large as any of its
/// prefixes.
pub proof fn lemma_digits_value_prefix(digits: Seq<u8>, n: int)
    requires
        0 <= n <= digits.len(),
        forall|i: int| 0 <= i < digits.len() ==> is_digit(#[trigger] digits[i]),
    ensures
        digits_value(digits.take(n)) <= digits_value(digits),
    decreases digits.len() - n,
{
    if n == digits.len() {
        assert(digits.take(n) =~= digits);
    } else {
        lemma_digits_value_prefix(digits, n + 1);
        let longer = digits.take(n + 1);
        assert(longer.drop_last() =~= digits.take(n));
        assert(is_digit(digits[n]));
        assert(longer.last() == digits[n]);
    }
}

/// Reads a key count.
pub fn parse_count(bytes: &[u8]) -> (r: Option<u64>)
    ensures
        match r {
            Some(n) => count_of(bytes@) == Some(n as nat),
            None => count_of(bytes@) is None,
        },
{
    let len: usize = bytes.len();
    if len == 0 {
        return None;
    }
    if bytes[0] == 48 && len > 1 {
        return None;
    }
    let mut value: u64 = 0;
    let mut i: usize = 0;
    while i < len
        invariant
            len == bytes@.len(),
            0 <= i <= len,
            forall|j: int| 0 <= j < i ==> is_digit(#[trigger] bytes@[j]),
            value == digits_value(bytes@.take(i as int)),
            value <= MAX_COUNT,
        decreases len - i,
    {
        let b: u8 = bytes[i];
        if b < 48 || b > 57 {
            assert(!is_digit(bytes@[i as int]));
            return None;
        }
        let d: u64 = (b - 48) as u64;
        proof {
            assert(bytes@.take(i + 1).drop_last() =~= bytes@.take(i as int));
            assert(bytes@.take(i + 1).last() == b);
        }
        if value > (MAX_COUNT - d) / 10 {
            proof {
                assert(digits_value(bytes@.take(i + 1)) > MAX_COUNT);
                if is_numeral(bytes@) {
                    lemma_digits_value_prefix(bytes@, i + 1);
                }
            }
            return None;
        }
        value = value * 10 + d;
        i = i + 1;
    }
    proof {
        assert(bytes@.take(len as int) =~= bytes@);
    }
    Some(value)
}

/// Copies `tokens[from..to]`.
pub(crate) fn copy_range(tokens: &Vec<String>, from: usize, to: usize) -> (r: Vec<String>)
    requires
        from <= to <= tokens.len(),
    ensures
        texts(r@) == texts(tokens@).subrange(from as int, to as int),
{
    let mut out: Vec<String> = Vec::new();
    let mut i: usize = from;
    while i < to
        invariant
            from <= i <= to <= tokens.len(),
            out@.len() == i - from,
            forall|j: int| 0 <= j < out@.len() ==> (#[trigger] out@[j])@ == tokens@[from + j]@,
        decreases to - i,
    {
        out.push(tokens[i].clone());
        i = i + 1;
    }
    assert(texts(out@) =~= texts(tokens@).subrange(from as int, to as int));
    out
}

/// Parses the tokens of a command, the command's name included, into a
/// request.
///
/// Fewer than three tokens is a wrong-arity error; a third token that is not
/// a key count is an invalid-numkeys error.  Otherwise the request is
/// [`request_of`] the tokens.
pub fn parse_request(tokens: Vec<String>) -> (r: Result<ExecutionRequest, RequestError>)
    ensures
        match r {
            Ok(request) => parsed(texts(tokens@)) == Ok::<RequestModel, RequestError>(request@),
            Err(e) => parsed(texts(tokens@)) == Err::<RequestModel, RequestError>(e),
        },
{
    let len: usize = tokens.len();
    if len < 3 {
        return Err(RequestError::WrongArity);
    }
    let count: u64 = match parse_count(tokens[2].as_str().as_bytes()) {
        Some(n) => n,
        None => {
            return Err(RequestError::InvalidNumKeys);
        },
    };
    let rest: usize = len - 3;
    let taken: usize = if count <= rest as u64 {
        count as usize
    } else {
        rest
    };
    let code: String = tokens[1].clone();
    let keys: Vec<String> = copy_range(&tokens, 3, 3 + taken);
    let args: Vec<String> = copy_range(&tokens, 3 + taken, len);
    Ok(ExecutionRequest { code, keys, args })
}

/// Builds the text that is evaluated for `code`.
pub fn wrap_code(code: &str) -> (r: String)
    ensures
        r@ == wrapped(code@),
{
    let mut text: String = String::from_str("(function(){");
    text.append(code);
    text.append("})();");
    text
}

impl RequestError {
    /// The text of the error reply.
    pub fn message(&self) -> (r: &'static str)
        ensures
            r@ == (match self {
                RequestError::WrongArity => "ERR wrong number of arguments"@,
                RequestError::InvalidNumKeys => "ERR invalid number of keys"@,
            }),
    {
        match self {
            RequestError::WrongArity => "ERR wrong number of arguments",
            RequestError::InvalidNumKeys => "ERR invalid number of keys",
        }
    }
}

} // verus!
