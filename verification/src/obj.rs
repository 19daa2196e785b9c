//! The tagged runtime value type of the machine.

use vstd::prelude::*;

use crate::json::{JsonV, JsonVal};
use crate::loader::LoadError;

verus! {

/// A runtime value: the unit datum that the literal pool, the memory array
/// and the operand stack hold. Once constructed a value is never edited in
/// place; every update replaces a whole slot.
#[derive(Debug, PartialEq)]
pub enum Obj {
    Null,
    Int(i64),
    Str(String),
}

/// The mathematical value of an [`Obj`]: text is a sequence of characters,
/// so contracts never depend on allocation; integers keep their 64-bit
/// width, which the arithmetic opcodes are specified over.
pub ghost enum ObjV {
    Null,
    Int(i64),
    Str(Seq<char>),
}

impl View for Obj {
    type V = ObjV;

    open spec fn view(&self) -> ObjV {
        match self {
            Obj::Null => ObjV::Null,
            Obj::Int(i) => ObjV::Int(*i),
            Obj::Str(s) => ObjV::Str(s@),
        }
    }
}

impl Clone for Obj {
    fn clone(&self) -> (res: Self)
        ensures
            res@ == self@,
    {
        match self {
            Obj::Null => Obj::Null,
            Obj::Int(i) => Obj::Int(*i),
            Obj::Str(s) => Obj::Str(s.clone()),
        }
    }
}

/// What [`Obj::to_bool`] yields: `None` on `Null`, otherwise the truthiness
/// of the value as `Int(0)` or `Int(1)` (a nonzero integer and a nonempty
/// string are true).
pub open spec fn to_bool_spec(v: ObjV) -> Option<ObjV> {
    match v {
        ObjV::Null => None,
        ObjV::Int(i) => Some(ObjV::Int(if i != 0 { 1i64 } else { 0i64 })),
        ObjV::Str(s) => Some(ObjV::Int(if s.len() != 0 { 1i64 } else { 0i64 })),
    }
}

/// Relies on `String::push`: appends exactly one character.
#[verifier::external_body]
fn string_push_char(s: &mut String, c: char)
    ensures
        final(s)@ == old(s)@.push(c),
{
    s.push(c);
}

/// The character for a decimal digit.
pub open spec fn digit_char(d: nat) -> char {
    ((48 + d) as u8) as char
}

/// The decimal text of a nonnegative number: its digits in order, with no
/// sign and no leading zero (a lone zero for zero itself).
pub open spec fn dec_seq(n: nat) -> Seq<char>
    decreases n,
{
    if n < 10 {
        seq![digit_char(n)]
    } else {
        dec_seq(n / 10).push(digit_char(n % 10))
    }
}

/// The decimal text of a 64-bit signed integer: a minus sign before the
/// magnitude when it is negative.
pub open spec fn i64_text(i: i64) -> Seq<char> {
    if i >= 0 {
        dec_seq(i as nat)
    } else {
        seq!['-'] + dec_seq((-(i as int)) as nat)
    }
}

/// What [`Obj::text`] yields: `Null` as the word `null`, an integer in
/// decimal, a string as its raw text.
pub open spec fn text_spec(v: ObjV) -> Seq<char> {
    match v {
        ObjV::Null => seq!['n', 'u', 'l', 'l'],
        ObjV::Int(i) => i64_text(i),
        ObjV::Str(s) => s,
    }
}

/// Append the decimal digits of `n` to `out`.
fn push_dec(n: u64, out: &mut String)
    ensures
        final(out)@ == old(out)@ + dec_seq(n as nat),
    decreases n,
{
    if n >= 10 {
        push_dec(n / 10, out);
    }
    let d = (n % 10) as u8;
    string_push_char(out, (48 + d) as char);
    proof {
        assert(out@ =~= old(out)@ + dec_seq(n as nat));
    }
}

/// What [`Obj::equal`] yields: integers compare by value, strings by their
/// characters, and values of different kinds — `Null` included — are never
/// equal.
pub open spec fn equal_spec(a: ObjV, b: ObjV) -> bool {
    match (a, b) {
        (ObjV::Int(i), ObjV::Int(j)) => i == j,
        (ObjV::Str(s), ObjV::Str(t)) => s == t,
        _ => false,
    }
}

/// What [`Obj::from_json`] yields: null, integers and strings carry over,
/// a boolean becomes `Int(1)` or `Int(0)`, and anything else — a number
/// outside `i64`, an array, an object — is an invalid memory value.
pub open spec fn from_json_spec(v: JsonV) -> Result<ObjV, LoadError> {
    match v {
        JsonV::Null => Ok(ObjV::Null),
        JsonV::Bool(b) => Ok(ObjV::Int(if b { 1i64 } else { 0i64 })),
        JsonV::Num(Some(i)) => Ok(ObjV::Int(i)),
        JsonV::Num(None) => Err(LoadError::InvalidMemoryValue),
        JsonV::Text(s) => Ok(ObjV::Str(s)),
        JsonV::Composite => Err(LoadError::InvalidMemoryValue),
    }
}

impl Obj {
    /// Decode one literal-pool element into a runtime value, exactly as
    /// [`from_json_spec`] defines it.
    pub fn from_json(v: &JsonVal) -> (r: Result<Obj, LoadError>)
        ensures
            match r {
                Ok(o) => from_json_spec(v@) == Ok::<ObjV, LoadError>(o@),
                Err(e) => from_json_spec(v@) == Err::<ObjV, LoadError>(e),
            },
    {
        match v {
            JsonVal::Null => Ok(Obj::Null),
            JsonVal::Bool(b) => Ok(Obj::Int(if *b { 1 } else { 0 })),
            JsonVal::Num(Some(i)) => Ok(Obj::Int(*i)),
            JsonVal::Num(None) => Err(LoadError::InvalidMemoryValue),
            JsonVal::Text(s) => Ok(Obj::Str(s.clone())),
            JsonVal::Composite => Err(LoadError::InvalidMemoryValue),
        }
    }

    /// Whether the value is an integer.
    pub fn is_int(&self) -> (r: bool)
        ensures
            r == (self@ is Int),
    {
        match self {
            Obj::Int(_) => true,
            _ => false,
        }
    }

    /// The integer held by the value, if it is one.
    pub fn as_int(&self) -> (r: Option<i64>)
        ensures
            match r {
                Some(i) => self@ == ObjV::Int(i),
                None => !(self@ is Int),
            },
    {
        match self {
            Obj::Int(i) => Some(*i),
            _ => None,
        }
    }

    /// Coerce the value to a boolean rendered as `Int(0)` or `Int(1)`;
    /// `Null` has no truthiness and yields `None`.
    pub fn to_bool(&self) -> (r: Option<Obj>)
        ensures
            match r {
                Some(b) => to_bool_spec(self@) == Some(b@),
                None => to_bool_spec(self@) is None,
            },
    {
        match self {
            Obj::Int(i) => Some(Obj::Int(if *i != 0 { 1 } else { 0 })),
            Obj::Str(s) => Some(Obj::Int(if s.as_str().unicode_len() != 0 { 1 } else { 0 })),
            Obj::Null => None,
        }
    }

    /// The textual form of the value, exactly as [`text_spec`] defines it:
    /// `Null` as the word `null`, an integer in decimal, a string raw.
    pub fn text(&self) -> (r: String)
        ensures
            r@ == text_spec(self@),
    {
        match self {
            Obj::Null => {
                let r = String::from_str("null");
                proof {
                    reveal_strlit("null");
                    assert(r@ =~= text_spec(self@));
                }
                r
            },
            Obj::Int(i) => {
                let i = *i;
                let mut out = String::new();
                let magnitude: u64 = if i >= 0 {
                    i as u64
                } else {
                    string_push_char(&mut out, '-');
                    ((-(i + 1)) as u64) + 1
                };
                push_dec(magnitude, &mut out);
                proof {
                    assert(out@ =~= text_spec(self@));
                }
                out
            },
            Obj::Str(s) => s.clone(),
        }
    }

    /// Whether two values are equal under the machine's notion of equality.
    pub fn equal(&self, other: &Obj) -> (r: bool)
        ensures
            r == equal_spec(self@, other@),
    {
        match (self, other) {
            (Obj::Int(i), Obj::Int(j)) => *i == *j,
            (Obj::Str(s), Obj::Str(t)) => *s == *t,
            _ => false,
        }
    }
}

} // verus!
