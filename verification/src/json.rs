//! JSON values as the library builds and reads them: tool arguments, tool
//! results, schemas and step outputs.
use vstd::prelude::*;
use crate::text::{chars_of, push_char};


verus! {

/// A JSON value. Numbers that are integers are held as `Int`; any other number
/// is held as `Real` with its decimal text.
#[derive(Debug, PartialEq)]
pub enum Json {
    Null,
    Bool(bool),
    Int(i64),
    Real(String),
    Str(String),
    Array(Vec<Json>),
    Object(Vec<(String, Json)>),
}

/// A JSON value that is not an array or an object, as a mathematical value.
pub enum Scalar {
    Null,
    Bool(bool),
    Int(int),
    Text(Seq<char>),
    /// A number with a fraction, an array or an object.
    Other,
}

/// Whether two values hold the same JSON: the same scalar, or arrays and
/// objects whose items (and keys) agree in order.
pub open spec fn same(a: Json, b: Json) -> bool
    decreases a,
{
    match a {
        Json::Array(x) => match b {
            Json::Array(y) => x@.len() == y@.len() && forall|i: int| 0 <= i < x@.len() ==> same(#[trigger] x@[i], y@[i]),
            _ => false,
        },
        Json::Object(x) => match b {
            Json::Object(y) => x@.len() == y@.len() && forall|i: int|
                0 <= i < x@.len() ==> (#[trigger] x@[i]).0@ == y@[i].0@ && same(x@[i].1, y@[i].1),
            _ => false,
        },
        Json::Str(s) => b matches Json::Str(t) && s@ == t@,
        Json::Real(s) => b matches Json::Real(t) && s@ == t@,
        _ => a == b,
    }
}

/// The value under key `k` among object members, the first such member winning.
pub open spec fn member_of(m: Seq<(String, Json)>, k: Seq<char>) -> Option<Json>
    decreases m.len(),
{
    if m.len() == 0 {
        None
    } else if m[0].0@ == k {
        Some(m[0].1)
    } else {
        member_of(m.drop_first(), k)
    }
}

/// Whether member `i` has key `k` and holds the string `t`.
pub open spec fn has_text(m: Seq<(String, Json)>, i: int, k: Seq<char>, t: Seq<char>) -> bool {
    0 <= i < m.len() && m[i].0@ == k && m[i].1.text() == Some(t)
}

/// Whether member `i` has key `k` and holds `v`.
pub open spec fn has_value(m: Seq<(String, Json)>, i: int, k: Seq<char>, v: Json) -> bool {
    0 <= i < m.len() && m[i].0@ == k && m[i].1 == v
}

/// The keys of object members, in order.
pub open spec fn member_keys(m: Seq<(String, Json)>) -> Seq<Seq<char>> {
    m.map_values(|p: (String, Json)| p.0@)
}

impl Json {
    /// The member under `k` when this is an object holding one.
    pub open spec fn member(self, k: Seq<char>) -> Option<Json> {
        match self {
            Json::Object(m) => member_of(m@, k),
            _ => None,
        }
    }

    /// The value as a scalar.
    pub open spec fn scalar(self) -> Scalar {
        match self {
            Json::Null => Scalar::Null,
            Json::Bool(b) => Scalar::Bool(b),
            Json::Int(i) => Scalar::Int(i as int),
            Json::Str(s) => Scalar::Text(s@),
            _ => Scalar::Other,
        }
    }

    /// The characters of a string value.
    pub open spec fn text(self) -> Option<Seq<char>> {
        match self {
            Json::Str(s) => Some(s@),
            _ => None,
        }
    }

    /// The characters of the string under key `k`.
    pub open spec fn text_at(self, k: Seq<char>) -> Option<Seq<char>> {
        match self.member(k) {
            Some(v) => v.text(),
            None => None,
        }
    }

    /// The integer under key `k`.
    pub open spec fn int_at(self, k: Seq<char>) -> Option<int> {
        match self.member(k) {
            Some(Json::Int(i)) => Some(i as int),
            _ => None,
        }
    }

    /// The boolean under key `k`.
    pub open spec fn bool_at(self, k: Seq<char>) -> Option<bool> {
        match self.member(k) {
            Some(Json::Bool(b)) => Some(b),
            _ => None,
        }
    }

    /// A copy of the value.
    pub fn copy(&self) -> (r: Json)
        ensures
            same(r, *self),
        decreases self,
    {
        match self {
            Json::Null => Json::Null,
            Json::Bool(b) => Json::Bool(*b),
            Json::Int(i) => Json::Int(*i),
            Json::Real(s) => Json::Real(s.clone()),
            Json::Str(s) => Json::Str(s.clone()),
            Json::Array(v) => {
                let mut r: Vec<Json> = Vec::new();
                let mut i: usize = 0;
                while i < v.len()
                    invariant
                        *self == Json::Array(*v),
                        i <= v@.len(),
                        r@.len() == i,
                        forall|k: int| 0 <= k < i ==> same(#[trigger] r@[k], v@[k]),
                    decreases v@.len() - i,
                {
                    proof {
                        assert(self->Array_0 == *v);
                        assert(decreases_to!(*self => self->Array_0));
                        assert(decreases_to!(*v => v@));
                        assert(decreases_to!(v@ => v@[i as int]));
                    }
                    let x = v[i].copy();
                    r.push(x);
                    i = i + 1;
                }
                Json::Array(r)
            },
            Json::Object(m) => {
                let mut r: Vec<(String, Json)> = Vec::new();
                let mut i: usize = 0;
                while i < m.len()
                    invariant
                        *self == Json::Object(*m),
                        i <= m@.len(),
                        r@.len() == i,
                        forall|k: int| 0 <= k < i ==> (#[trigger] r@[k]).0@ == m@[k].0@ && same(r@[k].1, m@[k].1),
                    decreases m@.len() - i,
                {
                    proof {
                        assert(self->Object_0 == *m);
                        assert(decreases_to!(*self => self->Object_0));
                        assert(decreases_to!(*m => m@));
                        assert(decreases_to!(m@ => m@[i as int]));
                        assert(decreases_to!(m@[i as int] => m@[i as int].1));
                    }
                    let x = m[i].1.copy();
                    r.push((m[i].0.clone(), x));
                    i = i + 1;
                }
                Json::Object(r)
            },
        }
    }

    /// A string value.
    pub fn string(s: &str) -> (j: Json)
        ensures
            j.text() == Some(s@),
    {
        Json::Str(String::from_str(s))
    }

    /// An object with no members.
    pub fn empty_object() -> (j: Json)
        ensures
            j matches Json::Object(m) && m@.len() == 0,
            forall|k: Seq<char>| j.member(k) is None,
    {
        Json::Object(Vec::new())
    }

    /// The member under `key` (`serde_json::Value::get` with a key).
    pub fn get(&self, key: &str) -> (r: Option<&Json>)
        ensures
            r matches Some(v) ==> self.member(key@) == Some(*v),
            r is None ==> self.member(key@) is None,
    {
        match self {
            Json::Object(m) => {
                let k = String::from_str(key);
                let mut i: usize = 0;
                assert(m@.subrange(0, m@.len() as int) =~= m@);
                while i < m.len()
                    invariant
                        i <= m@.len(),
                        k@ == key@,
                        self.member(key@) == member_of(m@, key@),
                        member_of(m@, key@) == member_of(m@.subrange(i as int, m@.len() as int), key@),
                    decreases m@.len() - i,
                {
                    let ghost rest = m@.subrange(i as int, m@.len() as int);
                    assert(rest.drop_first() =~= m@.subrange(i + 1, m@.len() as int));
                    assert(rest[0] == m@[i as int]);
                    if m[i].0 == k {
                        assert(rest.len() > 0 && rest[0].0@ == key@);
                        assert(member_of(rest, key@) == Some(m@[i as int].1));
                        return Some(&m[i].1);
                    }
                    i = i + 1;
                }
                None
            },
            _ => None,
        }
    }

    /// The characters of a string value (`as_str`).
    pub fn as_text(&self) -> (r: Option<&String>)
        ensures
            r matches Some(s) ==> self.text() == Some(s@),
            r is None ==> self.text() is None,
    {
        match self {
            Json::Str(s) => Some(s),
            _ => None,
        }
    }

    /// The string under `key` (`value[key].as_str()`).
    pub fn str_at(&self, key: &str) -> (r: Option<&String>)
        ensures
            r matches Some(s) ==> self.text_at(key@) == Some(s@),
            r is None ==> self.text_at(key@) is None,
    {
        match self.get(key) {
            Some(v) => v.as_text(),
            None => None,
        }
    }

    /// The integer under `key` (`value[key].as_i64()`).
    pub fn i64_at(&self, key: &str) -> (r: Option<i64>)
        ensures
            r matches Some(i) ==> self.int_at(key@) == Some(i as int),
            r is None ==> self.int_at(key@) is None,
    {
        match self.get(key) {
            Some(Json::Int(i)) => Some(*i),
            _ => None,
        }
    }

    /// The non-negative integer under `key` (`value[key].as_u64()`).
    pub fn u64_at(&self, key: &str) -> (r: Option<u64>)
        ensures
            r matches Some(i) ==> self.int_at(key@) == Some(i as int),
            r is None ==> !(self.int_at(key@) matches Some(i) && i >= 0),
    {
        match self.get(key) {
            Some(Json::Int(i)) => if *i >= 0 { Some(*i as u64) } else { None },
            _ => None,
        }
    }

    /// The boolean under `key` (`value[key].as_bool()`).
    pub fn bool_at_key(&self, key: &str) -> (r: Option<bool>)
        ensures
            r == self.bool_at(key@),
    {
        match self.get(key) {
            Some(Json::Bool(b)) => Some(*b),
            _ => None,
        }
    }

    /// Whether this is an object (`is_object`).
    pub fn is_object(&self) -> (b: bool)
        ensures
            b == (self matches Json::Object(_)),
    {
        match self {
            Json::Object(_) => true,
            _ => false,
        }
    }
}

/// Builds an object from members given in order.
pub fn object_of(members: Vec<(String, Json)>) -> (j: Json)
    ensures
        j == Json::Object(members),
{
    Json::Object(members)
}

/// A member whose value is a string.
pub fn str_member(key: &str, value: &str) -> (m: (String, Json))
    ensures
        m.0@ == key@,
        m.1.text() == Some(value@),
{
    (String::from_str(key), Json::string(value))
}

/// A member with any value.
pub fn member(key: &str, value: Json) -> (m: (String, Json))
    ensures
        m.0@ == key@,
        m.1 == value,
{
    (String::from_str(key), value)
}

/// A hexadecimal digit, lower case.
pub open spec fn hex_digit(d: nat) -> char {
    if d < 10 { ((48 + d) as u32) as char } else { ((87 + d) as u32) as char }
}

/// How a character stands inside a JSON string: quote and backslash behind
/// a backslash, the control characters with a short escape (backspace, tab,
/// line feed, form feed, carriage return) by it, the other control
/// characters below U+0020 as `\u00XX`, and every other character as itself.
pub open spec fn escape_char(c: char) -> Seq<char> {
    if c == '"' {
        seq!['\\', '"']
    } else if c == '\\' {
        seq!['\\', '\\']
    } else if c == '\u{8}' {
        seq!['\\', 'b']
    } else if c == '\t' {
        seq!['\\', 't']
    } else if c == '\n' {
        seq!['\\', 'n']
    } else if c == '\u{c}' {
        seq!['\\', 'f']
    } else if c == '\r' {
        seq!['\\', 'r']
    } else if (c as u32) < 0x20 {
        seq!['\\', 'u', '0', '0', hex_digit((c as u32) as nat / 16), hex_digit((c as u32) as nat % 16)]
    } else {
        seq![c]
    }
}

/// The characters escaped one by one.
pub open spec fn escaped(s: Seq<char>) -> Seq<char>
    decreases s.len(),
{
    if s.len() == 0 {
        Seq::empty()
    } else {
        escaped(s.drop_last()) + escape_char(s.last())
    }
}

/// The JSON string literal of the characters (what `serde_json::to_string`
/// writes for a `&str`): the escaped characters between double quotes.
pub open spec fn spec_quoted(s: Seq<char>) -> Seq<char> {
    seq!['"'] + escaped(s) + seq!['"']
}

fn hex_char(d: u32) -> (c: char)
    requires
        d < 16,
    ensures
        c == hex_digit(d as nat),
{
    if d < 10 {
        if d == 0 { '0' } else if d == 1 { '1' } else if d == 2 { '2' } else if d == 3 { '3' } else if d == 4 { '4' }
        else if d == 5 { '5' } else if d == 6 { '6' } else if d == 7 { '7' } else if d == 8 { '8' } else { '9' }
    } else {
        if d == 10 { 'a' } else if d == 11 { 'b' } else if d == 12 { 'c' } else if d == 13 { 'd' } else if d == 14 { 'e' } else { 'f' }
    }
}

fn push_escaped(out: &mut String, c: char)
    ensures
        final(out)@ == old(out)@ + escape_char(c),
{
    let ghost start = out@;
    if c == '"' {
        push_char(out, '\\');
        push_char(out, '"');
    } else if c == '\\' {
        push_char(out, '\\');
        push_char(out, '\\');
    } else if c == '\u{8}' {
        push_char(out, '\\');
        push_char(out, 'b');
    } else if c == '\t' {
        push_char(out, '\\');
        push_char(out, 't');
    } else if c == '\n' {
        push_char(out, '\\');
        push_char(out, 'n');
    } else if c == '\u{c}' {
        push_char(out, '\\');
        push_char(out, 'f');
    } else if c == '\r' {
        push_char(out, '\\');
        push_char(out, 'r');
    } else if (c as u32) < 0x20 {
        push_char(out, '\\');
        push_char(out, 'u');
        push_char(out, '0');
        push_char(out, '0');
        push_char(out, hex_char((c as u32) / 16));
        push_char(out, hex_char((c as u32) % 16));
    } else {
        push_char(out, c);
    }
    assert(out@ =~= start + escape_char(c));
}

/// Writes the characters as a JSON string literal (`serde_json::to_string` of a `&str`).
pub fn quoted(s: &str) -> (r: String)
    ensures
        r@ == spec_quoted(s@),
{
    let v = chars_of(s);
    let mut out = String::new();
    push_char(&mut out, '"');
    let mut i: usize = 0;
    while i < v.len()
        invariant
            i <= v@.len(),
            v@ == s@,
            out@ == seq!['"'] + escaped(v@.subrange(0, i as int)),
        decreases v@.len() - i,
    {
        assert(v@.subrange(0, i + 1).drop_last() =~= v@.subrange(0, i as int));
        push_escaped(&mut out, v[i]);
        i = i + 1;
        assert(out@ =~= seq!['"'] + escaped(v@.subrange(0, i as int)));
    }
    assert(v@.subrange(0, i as int) =~= s@);
    push_char(&mut out, '"');
    assert(out@ =~= spec_quoted(s@));
    out
}

/// Every value holds the same JSON as itself.
pub proof fn lemma_same_refl(a: Json)
    ensures
        same(a, a),
    decreases a,
{
    match a {
        Json::Array(x) => {
            assert forall|i: int| 0 <= i < x@.len() implies same(#[trigger] x@[i], x@[i]) by {
                assert(decreases_to!(a => x));
                assert(decreases_to!(x => x@));
                assert(decreases_to!(x@ => x@[i]));
                lemma_same_refl(x@[i]);
            }
        },
        Json::Object(x) => {
            assert forall|i: int| 0 <= i < x@.len() implies (#[trigger] x@[i]).0@ == x@[i].0@ && same(x@[i].1, x@[i].1) by {
                assert(decreases_to!(a => x));
                assert(decreases_to!(x => x@));
                assert(decreases_to!(x@ => x@[i]));
                assert(decreases_to!(x@[i] => x@[i].1));
                lemma_same_refl(x@[i].1);
            }
        },
        _ => {},
    }
}

} // verus!
