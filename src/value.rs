//! Script values, native payloads, and boolean coercion.

use vstd::prelude::*;
use vstd::string::StrSliceExecFns;

verus! {

/// A handle to an object stored in a [`crate::object::ObjectHeap`].
#[derive(Clone, Copy, Debug, PartialEq, Eq, Structural)]
pub struct Object {
    pub id: usize,
}

/// The native functions this runtime knows how to run.
#[derive(Clone, Copy, Debug, PartialEq, Eq, Structural)]
pub enum NativeMethod {
    BooleanConstructor,
    BooleanToString,
    BooleanValueOf,
}

/// Runtime-internal data attached to an object beside its properties.
#[derive(Clone, Copy, Debug, PartialEq, Eq, Structural)]
pub enum NativeObject {
    /// No native backing.
    Empty,
    /// A boxed primitive boolean.
    Bool(bool),
    /// A function implemented by the runtime.
    Function(NativeMethod),
}

/// A script value. Numbers of this model are integral.
#[derive(Debug)]
pub enum Value {
    Undefined,
    Null,
    Bool(bool),
    Number(i64),
    String(String),
    Object(Object),
}

/// First format version in which a string is truthy exactly when it is not empty.
pub const STRING_TRUTHINESS_VERSION: u8 = 7;

pub open spec fn is_digit(c: char) -> bool {
    '0' <= c && c <= '9'
}

pub open spec fn is_sign(c: char) -> bool {
    c == '+' || c == '-'
}

/// Every character of `s` in `lo..hi` is a decimal digit.
pub open spec fn digits_in(s: Seq<char>, lo: int, hi: int) -> bool {
    forall|i: int| lo <= i < hi ==> is_digit(#[trigger] s[i])
}

/// From position `lo` to its end, `s` holds one or more digits, optionally
/// followed by a point and one or more digits.
pub open spec fn unsigned_numeral_at(s: Seq<char>, lo: int) -> bool {
    ||| lo < s.len() && digits_in(s, lo, s.len() as int)
    ||| exists|p: int|
        lo < p < s.len() - 1 && #[trigger] s[p] == '.' && digits_in(s, lo, p) && digits_in(
            s,
            p + 1,
            s.len() as int,
        )
}

/// `s` is a decimal numeral with an optional leading sign.
pub open spec fn is_numeral(s: Seq<char>) -> bool {
    ||| unsigned_numeral_at(s, 0)
    ||| s.len() > 0 && is_sign(s[0]) && unsigned_numeral_at(s, 1)
}

pub open spec fn has_nonzero_digit(s: Seq<char>) -> bool {
    exists|i: int| 0 <= i < s.len() && '1' <= #[trigger] s[i] && s[i] <= '9'
}

/// How a string reads as a boolean in a given format version: from version 7
/// on it is true when it is not empty; before that it is read as a number,
/// which is true when it is a numeral with a nonzero digit (anything that is
/// no numeral reads as NaN, which is false).
pub open spec fn string_truthy(s: Seq<char>, swf_version: u8) -> bool {
    if swf_version >= STRING_TRUTHINESS_VERSION {
        s.len() > 0
    } else {
        is_numeral(s) && has_nonzero_digit(s)
    }
}

/// The boolean that a value coerces to in a given format version.
pub open spec fn bool_of(v: Value, swf_version: u8) -> bool {
    match v {
        Value::Undefined => false,
        Value::Null => false,
        Value::Bool(b) => b,
        Value::Number(n) => n != 0,
        Value::String(s) => string_truthy(s@, swf_version),
        Value::Object(_) => true,
    }
}

fn char_is_digit(c: char) -> (r: bool)
    ensures
        r == is_digit(c),
{
    '0' <= c && c <= '9'
}

/// Whether `s` is a decimal numeral with an optional leading sign.
pub fn str_is_numeral(s: &str) -> (r: bool)
    ensures
        r == is_numeral(s@),
{
    let n = s.unicode_len();
    let start: usize = if n > 0 && (s.get_char(0) == '+' || s.get_char(0) == '-') {
        1
    } else {
        0
    };
    let mut j: usize = start;
    while j < n && char_is_digit(s.get_char(j))
        invariant
            n == s@.len(),
            start <= j <= n,
            digits_in(s@, start as int, j as int),
        decreases n - j,
    {
        j = j + 1;
    }
    let unsigned = if j == n {
        j > start
    } else if s.get_char(j) == '.' && j > start {
        let mut k: usize = j + 1;
        while k < n && char_is_digit(s.get_char(k))
            invariant
                n == s@.len(),
                j < k <= n,
                digits_in(s@, j + 1, k as int),
            decreases n - k,
        {
            k = k + 1;
        }
        proof {
            if k == n && k > j + 1 {
                assert(s@[j as int] == '.');
            } else {
                assert forall|p: int|
                    start < p < s@.len() - 1 && #[trigger] s@[p] == '.' && digits_in(
                        s@,
                        start as int,
                        p,
                    ) implies !digits_in(s@, p + 1, s@.len() as int) by {
                    if p < j {
                        assert(is_digit(s@[p]));
                    } else if p > j {
                        assert(is_digit(s@[j as int]));
                    } else {
                        assert(!is_digit(s@[k as int]));
                    }
                }
            }
        }
        k == n && k > j + 1
    } else {
        proof {
            assert forall|p: int|
                start < p < s@.len() - 1 && #[trigger] s@[p] == '.' implies !digits_in(
                s@,
                start as int,
                p,
            ) by {
                if p < j {
                    assert(is_digit(s@[p]));
                } else if p > j {
                    assert(!is_digit(s@[j as int]));
                }
            }
        }
        false
    };
    proof {
        assert(unsigned == unsigned_numeral_at(s@, start as int));
        if start == 1 {
            assert(!is_digit(s@[0]));
            assert forall|p: int| 0 < p && digits_in(s@, 0, p) implies false by {
                assert(is_digit(s@[0]));
            }
            assert(!unsigned_numeral_at(s@, 0));
        }
    }
    unsigned
}

/// Whether `a` and `b` hold the same characters.
pub fn str_equal(a: &str, b: &str) -> (r: bool)
    ensures
        r == (a@ == b@),
{
    let n = a.unicode_len();
    if n != b.unicode_len() {
        return false;
    }
    let mut i: usize = 0;
    while i < n
        invariant
            n == a@.len(),
            n == b@.len(),
            i <= n,
            forall|k: int| 0 <= k < i ==> a@[k] == b@[k],
        decreases n - i,
    {
        if a.get_char(i) != b.get_char(i) {
            return false;
        }
        i = i + 1;
    }
    assert(a@ =~= b@);
    true
}

/// Whether `s` holds a digit other than zero.
pub fn str_has_nonzero_digit(s: &str) -> (r: bool)
    ensures
        r == has_nonzero_digit(s@),
{
    let n = s.unicode_len();
    let mut i: usize = 0;
    while i < n
        invariant
            n == s@.len(),
            i <= n,
            forall|k: int| 0 <= k < i ==> !('1' <= #[trigger] s@[k] && s@[k] <= '9'),
        decreases n - i,
    {
        let c = s.get_char(i);
        if '1' <= c && c <= '9' {
            return true;
        }
        i = i + 1;
    }
    false
}

/// How the string `s` reads as a boolean in format version `swf_version`.
pub fn string_as_bool(s: &str, swf_version: u8) -> (r: bool)
    ensures
        r == string_truthy(s@, swf_version),
{
    if swf_version >= STRING_TRUTHINESS_VERSION {
        s.unicode_len() > 0
    } else {
        str_is_numeral(s) && str_has_nonzero_digit(s)
    }
}

impl Value {
    /// Coerces this value to a boolean under the rules of format version
    /// `swf_version`.
    pub fn as_bool(&self, swf_version: u8) -> (r: bool)
        ensures
            r == bool_of(*self, swf_version),
    {
        match self {
            Value::Undefined => false,
            Value::Null => false,
            Value::Bool(b) => *b,
            Value::Number(n) => *n != 0,
            Value::String(s) => string_as_bool(s.as_str(), swf_version),
            Value::Object(_) => true,
        }
    }

    /// A copy of this value.
    pub fn duplicate(&self) -> (r: Value)
        ensures
            r == *self,
    {
        match self {
            Value::Undefined => Value::Undefined,
            Value::Null => Value::Null,
            Value::Bool(b) => Value::Bool(*b),
            Value::Number(n) => Value::Number(*n),
            Value::String(s) => Value::String(s.clone()),
            Value::Object(o) => Value::Object(*o),
        }
    }
}

} // verus!
