//! Text primitives shared by the library: building strings, searching,
//! replacing, splitting and decimal number conversion, all over the
//! character sequences that `String` and `str` denote.
use vstd::prelude::*;

verus! {

/// Appends one character to a string (`String::push`).
#[verifier::external_body]
pub(crate) fn push_char(s: &mut String, c: char)
    ensures
        final(s)@ == old(s)@.push(c),
{
    s.push(c);
}

/// The character sequence that `str::to_lowercase` produces for a given one.
pub uninterp spec fn spec_lowercase(s: Seq<char>) -> Seq<char>;

/// Unicode lower-casing (`str::to_lowercase`); its result is a function of the
/// characters of the input alone.
#[verifier::external_body]
pub(crate) fn to_lowercase(s: &str) -> (r: String)
    ensures
        r@ == spec_lowercase(s@),
{
    s.to_lowercase()
}

/// Whether a character has Unicode's White_Space property (what
/// `char::is_whitespace` tests): tab through carriage return, space, next
/// line, no-break space, ogham space mark, the spaces from en quad to hair
/// space, line and paragraph separators, narrow no-break space, medium
/// mathematical space and ideographic space.
pub open spec fn spec_is_whitespace(c: char) -> bool {
    let u = c as u32;
    (0x09 <= u <= 0x0D) || u == 0x20 || u == 0x85 || u == 0xA0 || u == 0x1680 || (0x2000 <= u <= 0x200A)
        || u == 0x2028 || u == 0x2029 || u == 0x202F || u == 0x205F || u == 0x3000
}

/// Unicode white space test (`char::is_whitespace`).
pub(crate) fn is_whitespace(c: char) -> (b: bool)
    ensures
        b == spec_is_whitespace(c),
{
    let u = c as u32;
    (0x09 <= u && u <= 0x0D) || u == 0x20 || u == 0x85 || u == 0xA0 || u == 0x1680 || (0x2000 <= u && u <= 0x200A)
        || u == 0x2028 || u == 0x2029 || u == 0x202F || u == 0x205F || u == 0x3000
}

/// A string with the characters of a literal or slice.
pub fn owned(s: &str) -> (r: String)
    ensures
        r@ == s@,
{
    String::from_str(s)
}

/// The concatenation of two texts.
pub fn cat(a: &str, b: &str) -> (r: String)
    ensures
        r@ == a@ + b@,
{
    let mut r = String::from_str(a);
    r.append(b);
    r
}

/// The concatenation of three texts.
pub fn cat3(a: &str, b: &str, c: &str) -> (r: String)
    ensures
        r@ == a@ + b@ + c@,
{
    let mut r = String::from_str(a);
    r.append(b);
    r.append(c);
    r
}

/// The concatenation of five texts.
pub fn cat5(a: &str, b: &str, c: &str, d: &str, e: &str) -> (r: String)
    ensures
        r@ == a@ + b@ + c@ + d@ + e@,
{
    let mut r = String::from_str(a);
    r.append(b);
    r.append(c);
    r.append(d);
    r.append(e);
    r
}

/// The characters of a text, in order.
pub fn chars_of(s: &str) -> (v: Vec<char>)
    ensures
        v@ == s@,
{
    let n = s.unicode_len();
    let mut v: Vec<char> = Vec::new();
    let mut i: usize = 0;
    while i < n
        invariant
            n == s@.len(),
            i <= n,
            v@ == s@.subrange(0, i as int),
        decreases n - i,
    {
        let c = s.get_char(i);
        v.push(c);
        i = i + 1;
        assert(v@ =~= s@.subrange(0, i as int));
    }
    assert(v@ =~= s@);
    v
}

/// A string holding a slice of characters.
pub fn string_of(v: &[char]) -> (s: String)
    ensures
        s@ == v@,
{
    let mut s = String::new();
    let mut i: usize = 0;
    while i < v.len()
        invariant
            i <= v@.len(),
            s@ == v@.subrange(0, i as int),
        decreases v@.len() - i,
    {
        push_char(&mut s, v[i]);
        i = i + 1;
        assert(s@ =~= v@.subrange(0, i as int));
    }
    assert(s@ =~= v@);
    s
}

/// Whether two texts hold the same characters.
pub fn same_text(a: &str, b: &str) -> (r: bool)
    ensures
        r == (a@ == b@),
{
    let x = String::from_str(a);
    let y = String::from_str(b);
    x == y
}

/// Whether `pat` occurs in `s` starting at position `i`.
pub open spec fn occurs_at(s: Seq<char>, pat: Seq<char>, i: int) -> bool {
    0 <= i && i + pat.len() <= s.len() && s.subrange(i, i + pat.len()) == pat
}

/// The first position at or after `from` where `pat` occurs in `s`, if any.
pub open spec fn first_occurrence_from(s: Seq<char>, pat: Seq<char>, from: int) -> Option<int>
    decreases s.len() + 1 - from,
{
    if from < 0 || from + pat.len() > s.len() {
        None
    } else if occurs_at(s, pat, from) {
        Some(from)
    } else {
        first_occurrence_from(s, pat, from + 1)
    }
}

/// The first position where `pat` occurs in `s`, if any.
pub open spec fn first_occurrence(s: Seq<char>, pat: Seq<char>) -> Option<int> {
    first_occurrence_from(s, pat, 0)
}

/// Whether `pat` occurs anywhere in `s`.
pub open spec fn spec_contains(s: Seq<char>, pat: Seq<char>) -> bool {
    first_occurrence(s, pat) is Some
}

pub proof fn lemma_first_occurrence_from(s: Seq<char>, pat: Seq<char>, from: int)
    requires
        0 <= from,
    ensures
        first_occurrence_from(s, pat, from) matches Some(k) ==> from <= k && occurs_at(s, pat, k)
            && forall|j: int| from <= j < k ==> !occurs_at(s, pat, j),
        first_occurrence_from(s, pat, from) is None ==> forall|j: int|
            from <= j ==> !occurs_at(s, pat, j),
    decreases s.len() + 1 - from,
{
    if from + pat.len() > s.len() {
    } else {
        lemma_first_occurrence_from(s, pat, from + 1);
    }
}

/// A position `k` is the first occurrence from `from` when `pat` is there
/// and nowhere in between.
pub proof fn lemma_first_is(s: Seq<char>, pat: Seq<char>, from: int, k: int)
    requires
        0 <= from <= k,
        occurs_at(s, pat, k),
        forall|j: int| from <= j < k ==> !occurs_at(s, pat, j),
    ensures
        first_occurrence_from(s, pat, from) == Some(k),
{
    lemma_first_occurrence_from(s, pat, from);
    match first_occurrence_from(s, pat, from) {
        Some(k2) => {
            if k2 < k {
                assert(!occurs_at(s, pat, k2));
            }
            if k < k2 {
                assert(!occurs_at(s, pat, k));
            }
        },
        None => {
            assert(!occurs_at(s, pat, k));
        },
    }
}

/// Whether `pat` occurs in `v` at position `i` (executable).
fn matches_at(v: &Vec<char>, pat: &Vec<char>, i: usize) -> (r: bool)
    requires
        i + pat@.len() <= v@.len(),
    ensures
        r == occurs_at(v@, pat@, i as int),
{
    let _n = v.len();
    let mut j: usize = 0;
    while j < pat.len()
        invariant
            i + pat@.len() <= v@.len(),
            v@.len() <= usize::MAX,
            j <= pat@.len(),
            forall|t: int| 0 <= t < j ==> v@[i + t] == pat@[t],
        decreases pat@.len() - j,
    {
        if v[i + j] != pat[j] {
            assert(v@.subrange(i as int, i + pat@.len())[j as int] != pat@[j as int]);
            return false;
        }
        j = j + 1;
    }
    assert(v@.subrange(i as int, i + pat@.len()) =~= pat@);
    true
}

/// The first position at or after `from` where `pat` occurs in `v`.
pub fn find_from(v: &Vec<char>, pat: &Vec<char>, from: usize) -> (r: Option<usize>)
    ensures
        r matches Some(k) ==> first_occurrence_from(v@, pat@, from as int) == Some(k as int),
        r is None ==> first_occurrence_from(v@, pat@, from as int) is None,
{
    proof {
        lemma_first_occurrence_from(v@, pat@, from as int);
    }
    if pat.len() > v.len() || from > v.len() - pat.len() {
        return None;
    }
    let last = v.len() - pat.len();
    let mut i = from;
    while i < last
        invariant
            last == v@.len() - pat@.len(),
            from <= i <= last,
            forall|j: int| from <= j < i ==> !occurs_at(v@, pat@, j),
        decreases last - i,
    {
        if matches_at(v, pat, i) {
            proof {
                lemma_first_is(v@, pat@, from as int, i as int);
            }
            return Some(i);
        }
        i = i + 1;
    }
    if matches_at(v, pat, last) {
        proof {
            lemma_first_is(v@, pat@, from as int, last as int);
        }
        return Some(last);
    }
    assert forall|j: int| from <= j implies !occurs_at(v@, pat@, j) by {
        if j > last {
            assert(j + pat@.len() > v@.len());
        }
    }
    None
}

/// Whether `pat` occurs in `s`.
pub fn contains_text(s: &str, pat: &str) -> (r: bool)
    ensures
        r == spec_contains(s@, pat@),
{
    let v = chars_of(s);
    let p = chars_of(pat);
    find_from(&v, &p, 0).is_some()
}

/// Whether `s` begins with `pre`.
pub fn starts_with_text(s: &str, pre: &str) -> (r: bool)
    ensures
        r == (pre@.len() <= s@.len() && s@.subrange(0, pre@.len() as int) == pre@),
{
    let v = chars_of(s);
    let p = chars_of(pre);
    if p.len() > v.len() {
        return false;
    }
    matches_at(&v, &p, 0)
}

/// `s` with every non-overlapping occurrence of the non-empty `pat`, scanned
/// from the left, replaced by `rep` (what `str::replace` computes).
pub open spec fn replace_from(s: Seq<char>, pat: Seq<char>, rep: Seq<char>, from: int) -> Seq<char>
    decreases s.len() - from,
{
    if from < 0 || from >= s.len() || pat.len() == 0 {
        s.subrange(if 0 <= from <= s.len() { from } else { s.len() as int }, s.len() as int)
    } else {
        match first_occurrence_from(s, pat, from) {
            None => s.subrange(from, s.len() as int),
            Some(k) => {
                proof {
                    lemma_first_occurrence_from(s, pat, from);
                }
                s.subrange(from, k) + rep + replace_from(s, pat, rep, k + pat.len())
            },
        }
    }
}

/// `s` with all occurrences of the non-empty `pat` replaced by `rep`.
pub open spec fn spec_replace(s: Seq<char>, pat: Seq<char>, rep: Seq<char>) -> Seq<char> {
    replace_from(s, pat, rep, 0)
}

/// Replaces every occurrence of the non-empty `pat` in `s` by `rep`.
pub fn replace_text(s: &str, pat: &str, rep: &str) -> (r: String)
    requires
        pat@.len() > 0,
    ensures
        r@ == spec_replace(s@, pat@, rep@),
{
    let v = chars_of(s);
    let p = chars_of(pat);
    let mut out = String::new();
    let mut i: usize = 0;
    while i < v.len()
        invariant
            p@ == pat@,
            p@.len() > 0,
            i <= v@.len(),
            out@ + replace_from(v@, p@, rep@, i as int) == replace_from(v@, p@, rep@, 0),
        decreases v@.len() - i,
    {
        proof {
            lemma_first_occurrence_from(v@, p@, i as int);
        }
        match find_from(&v, &p, i) {
            None => {
                let mut j = i;
                let ghost before = out@;
                while j < v.len()
                    invariant
                        i <= j <= v@.len(),
                        out@ == before + v@.subrange(i as int, j as int),
                    decreases v@.len() - j,
                {
                    push_char(&mut out, v[j]);
                    j = j + 1;
                    assert(out@ =~= before + v@.subrange(i as int, j as int));
                }
                assert(out@ + replace_from(v@, p@, rep@, v@.len() as int) =~= before
                    + replace_from(v@, p@, rep@, i as int));
                i = v.len();
            },
            Some(k) => {
                let mut j = i;
                let ghost before = out@;
                while j < k
                    invariant
                        i <= j <= k,
                        k + p@.len() <= v@.len(),
                        out@ == before + v@.subrange(i as int, j as int),
                    decreases k - j,
                {
                    push_char(&mut out, v[j]);
                    j = j + 1;
                    assert(out@ =~= before + v@.subrange(i as int, j as int));
                }
                out.append(rep);
                let next = k + p.len();
                assert(out@ + replace_from(v@, p@, rep@, next as int) =~= before
                    + replace_from(v@, p@, rep@, i as int));
                i = next;
            },
        }
    }
    assert(replace_from(v@, p@, rep@, i as int) =~= Seq::<char>::empty());
    assert(out@ =~= replace_from(v@, p@, rep@, 0));
    out
}

/// The decimal digit character for a value below ten.
pub open spec fn digit_char(d: nat) -> char {
    if d == 0 { '0' }
    else if d == 1 { '1' }
    else if d == 2 { '2' }
    else if d == 3 { '3' }
    else if d == 4 { '4' }
    else if d == 5 { '5' }
    else if d == 6 { '6' }
    else if d == 7 { '7' }
    else if d == 8 { '8' }
    else { '9' }
}

/// The decimal text of a natural number, without sign or leading zeros.
pub open spec fn decimal(n: nat) -> Seq<char>
    decreases n,
{
    if n < 10 {
        seq![digit_char(n)]
    } else {
        decimal(n / 10).push(digit_char(n % 10))
    }
}

/// The decimal text of an integer, with a leading `-` when negative.
pub open spec fn signed_decimal(n: int) -> Seq<char> {
    if n < 0 {
        seq!['-'] + decimal((-n) as nat)
    } else {
        decimal(n as nat)
    }
}

fn digit_of(d: u64) -> (c: char)
    requires
        d < 10,
    ensures
        c == digit_char(d as nat),
{
    if d == 0 { '0' }
    else if d == 1 { '1' }
    else if d == 2 { '2' }
    else if d == 3 { '3' }
    else if d == 4 { '4' }
    else if d == 5 { '5' }
    else if d == 6 { '6' }
    else if d == 7 { '7' }
    else if d == 8 { '8' }
    else { '9' }
}

/// Appends the decimal text of `n`.
pub fn push_decimal(out: &mut String, n: u64)
    ensures
        final(out)@ == old(out)@ + decimal(n as nat),
    decreases n,
{
    if n >= 10 {
        push_decimal(out, n / 10);
    }
    push_char(out, digit_of(n % 10));
    assert(final(out)@ =~= old(out)@ + decimal(n as nat));
}

/// The decimal text of an unsigned number (`u64::to_string`).
pub fn u64_text(n: u64) -> (s: String)
    ensures
        s@ == decimal(n as nat),
{
    let mut s = String::new();
    push_decimal(&mut s, n);
    assert(s@ =~= decimal(n as nat));
    s
}

/// The decimal text of a signed number (`i64::to_string`).
pub fn i64_text(n: i64) -> (s: String)
    ensures
        s@ == signed_decimal(n as int),
{
    let mut s = String::new();
    if n < 0 {
        push_char(&mut s, '-');
        let m: u64 = if n == i64::MIN { 9223372036854775808u64 } else { (-n) as u64 };
        push_decimal(&mut s, m);
    } else {
        push_decimal(&mut s, n as u64);
    }
    assert(s@ =~= signed_decimal(n as int));
    s
}

/// A number of thousandths as a floating-point number prints: without a
/// fraction when it is whole ("50"), else with its shortest fraction ("26.5").
pub open spec fn milli_display(v: int) -> Seq<char> {
    if v % 1000 == 0 { signed_decimal(v / 1000) } else { milli_text(v) }
}

/// The printed form of a number of thousandths.
pub fn milli_display_string(v: i64) -> (s: String)
    ensures
        s@ == milli_display(v as int),
{
    if v % 1000 == 0 {
        i64_text(v / 1000)
    } else {
        milli_string(v)
    }
}

/// The digits after the point of a number of thousandths below a thousand,
/// without trailing zeros but at least one digit.
pub open spec fn milli_fraction(r: nat) -> Seq<char> {
    let d1 = r / 100;
    let d2 = (r / 10) % 10;
    let d3 = r % 10;
    if d3 != 0 {
        seq![digit_char(d1), digit_char(d2), digit_char(d3)]
    } else if d2 != 0 {
        seq![digit_char(d1), digit_char(d2)]
    } else {
        seq![digit_char(d1)]
    }
}

/// The text of a number given in thousandths, as a decimal with a point and
/// the shortest fraction: 26500 is "26.5", 60000 is "60.0", -1 is "-0.001".
pub open spec fn milli_text(v: int) -> Seq<char> {
    let a: nat = if v < 0 { (-v) as nat } else { v as nat };
    (if v < 0 { seq!['-'] } else { Seq::<char>::empty() }) + decimal(a / 1000) + seq!['.'] + milli_fraction(a % 1000)
}

/// The text of a number given in thousandths.
pub fn milli_string(v: i64) -> (s: String)
    ensures
        s@ == milli_text(v as int),
{
    let mut s = String::new();
    let a: u64 = if v < 0 {
        push_char(&mut s, '-');
        if v == i64::MIN { 9223372036854775808u64 } else { (-v) as u64 }
    } else {
        v as u64
    };
    let ghost sign = s@;
    push_decimal(&mut s, a / 1000);
    push_char(&mut s, '.');
    let r = a % 1000;
    let d1 = r / 100;
    let d2 = (r / 10) % 10;
    let d3 = r % 10;
    push_char(&mut s, digit_of(d1));
    if d3 != 0 {
        push_char(&mut s, digit_of(d2));
        push_char(&mut s, digit_of(d3));
    } else if d2 != 0 {
        push_char(&mut s, digit_of(d2));
    }
    proof {
        let an: nat = if v < 0 { (-(v as int)) as nat } else { v as nat };
        assert(an == a as nat);
        assert(s@ =~= milli_text(v as int));
    }
    s
}

/// The thousandths that the digits after a point stand for: the first three
/// digits, later ones dropped.
pub open spec fn frac_milli(f: Seq<char>) -> int {
    (if f.len() > 0 { f[0] as int - '0' as int } else { 0 }) * 100
        + (if f.len() > 1 { f[1] as int - '0' as int } else { 0 }) * 10
        + (if f.len() > 2 { f[2] as int - '0' as int } else { 0 })
}

/// The number of thousandths that a decimal text such as "26.5", "-3" or
/// "5." denotes (digits after the third decimal dropped), when it fits in
/// `i64`: an optional `-`, digits, and optionally a point and digits, with
/// at least one digit in all.
pub open spec fn parse_milli(t: Seq<char>) -> Option<int> {
    let neg = t.len() > 0 && t[0] == '-';
    let body = if neg { t.drop_first() } else { t };
    let parts = split_on(body, '.');
    let ip = parts[0];
    let fp = if parts.len() == 2 { parts[1] } else { Seq::<char>::empty() };
    if parts.len() <= 2 && (ip.len() > 0 || fp.len() > 0) && all_digits(ip) && all_digits(fp) {
        let v = digits_value(ip) * 1000 + frac_milli(fp);
        let s = if neg { -v } else { v };
        if i64::MIN <= s <= i64::MAX { Some(s) } else { None }
    } else {
        None
    }
}

fn digits_only(v: &Vec<char>) -> (b: bool)
    ensures
        b == all_digits(v@),
{
    let mut i: usize = 0;
    while i < v.len()
        invariant
            i <= v@.len(),
            forall|k: int| 0 <= k < i ==> '0' <= #[trigger] v@[k] <= '9',
        decreases v@.len() - i,
    {
        if !('0' <= v[i] && v[i] <= '9') {
            return false;
        }
        i = i + 1;
    }
    true
}

/// Reads a decimal text as a number of thousandths.
pub fn parse_milli_text(t: &str) -> (r: Option<i64>)
    ensures
        r matches Some(x) ==> parse_milli(t@) == Some(x as int),
        r is None ==> parse_milli(t@) is None,
{
    let chars = chars_of(t);
    let neg = chars.len() > 0 && chars[0] == '-';
    let mut body: Vec<char> = Vec::new();
    let mut i: usize = if neg { 1 } else { 0 };
    let start = i;
    while i < chars.len()
        invariant
            start <= i <= chars@.len(),
            body@ == chars@.subrange(start as int, i as int),
        decreases chars@.len() - i,
    {
        body.push(chars[i]);
        i = i + 1;
        assert(body@ =~= chars@.subrange(start as int, i as int));
    }
    let ghost bv = if neg { t@.drop_first() } else { t@ };
    assert(body@ =~= bv);
    let parts = split_chars(&body, '.');
    proof {
        lemma_split_nonempty(bv, '.');
    }
    if parts.len() > 2 {
        return None;
    }
    let ip = &parts[0];
    if !digits_only(ip) {
        return None;
    }
    let empty: Vec<char> = Vec::new();
    let fp = if parts.len() == 2 { &parts[1] } else { &empty };
    assert(fp@ == (if split_on(bv, '.').len() == 2 { split_on(bv, '.')[1] } else { Seq::<char>::empty() }));
    if !digits_only(fp) {
        return None;
    }
    if ip.len() == 0 && fp.len() == 0 {
        return None;
    }
    let iv: u64 = if ip.len() == 0 {
        0
    } else {
        assert(unsigned_body(ip@) == ip@);
        match parse_unsigned_chars(ip, u64::MAX) {
            Some(x) => x,
            None => {
                return None;
            },
        }
    };
    let f0: i128 = if fp.len() > 0 { (fp[0] as u32 - '0' as u32) as i128 } else { 0 };
    let f1: i128 = if fp.len() > 1 { (fp[1] as u32 - '0' as u32) as i128 } else { 0 };
    let f2: i128 = if fp.len() > 2 { (fp[2] as u32 - '0' as u32) as i128 } else { 0 };
    let v: i128 = (iv as i128) * 1000 + f0 * 100 + f1 * 10 + f2;
    let sv: i128 = if neg { -v } else { v };
    if sv < i64::MIN as i128 || sv > i64::MAX as i128 {
        return None;
    }
    Some(sv as i64)
}

/// The value of a non-empty run of ASCII decimal digits.
pub open spec fn digits_value(s: Seq<char>) -> nat
    decreases s.len(),
{
    if s.len() == 0 {
        0
    } else {
        digits_value(s.drop_last()) * 10 + ((s.last() as int - '0' as int) as nat)
    }
}

/// Whether every character of `s` is an ASCII decimal digit.
pub open spec fn all_digits(s: Seq<char>) -> bool {
    forall|i: int| 0 <= i < s.len() ==> '0' <= #[trigger] s[i] <= '9'
}

/// The characters after an optional leading `+`, as unsigned number parsing reads them.
pub open spec fn unsigned_body(s: Seq<char>) -> Seq<char> {
    if s.len() > 0 && s[0] == '+' {
        s.drop_first()
    } else {
        s
    }
}

/// What parsing `s` as an unsigned number no larger than `max` yields
/// (`str::parse` for `u32` and `usize`): an optional `+` followed by at
/// least one ASCII digit, of value at most `max`.
pub open spec fn parse_unsigned(s: Seq<char>, max: nat) -> Option<nat> {
    let body = unsigned_body(s);
    if body.len() > 0 && all_digits(body) && digits_value(body) <= max {
        Some(digits_value(body))
    } else {
        None
    }
}

proof fn lemma_digits_value_monotone(s: Seq<char>, i: int)
    requires
        all_digits(s),
        0 <= i <= s.len(),
    ensures
        digits_value(s.subrange(0, i)) <= digits_value(s),
    decreases s.len() - i,
{
    if i < s.len() {
        lemma_digits_value_monotone(s, i + 1);
        let t = s.subrange(0, i + 1);
        assert(t.drop_last() =~= s.subrange(0, i));
    } else {
        assert(s.subrange(0, i) =~= s);
    }
}

/// Parses an unsigned decimal number of at most `max` (`str::parse::<u64>` with a bound).
pub fn parse_unsigned_text(s: &str, max: u64) -> (r: Option<u64>)
    ensures
        r matches Some(v) ==> parse_unsigned(s@, max as nat) == Some(v as nat),
        r is None ==> parse_unsigned(s@, max as nat) is None,
{
    let v = chars_of(s);
    parse_unsigned_chars(&v, max)
}

/// Parses the characters `s` as an unsigned decimal number of at most `max`.
pub fn parse_unsigned_chars(v: &Vec<char>, max: u64) -> (r: Option<u64>)
    ensures
        r matches Some(x) ==> parse_unsigned(v@, max as nat) == Some(x as nat),
        r is None ==> parse_unsigned(v@, max as nat) is None,
{
    let ghost s = v@;
    let ghost body = unsigned_body(s);
    let start: usize = if v.len() > 0 && v[0] == '+' { 1 } else { 0 };
    assert(body =~= v@.subrange(start as int, v@.len() as int));
    if start >= v.len() {
        return None;
    }
    let mut acc: u64 = 0;
    let mut i = start;
    while i < v.len()
        invariant
            start <= i <= v@.len(),
            v@ == s,
            body == unsigned_body(s),
            body == v@.subrange(start as int, v@.len() as int),
            all_digits(v@.subrange(start as int, i as int)),
            acc as nat == digits_value(v@.subrange(start as int, i as int)),
            acc <= max,
        decreases v@.len() - i,
    {
        let c = v[i];
        if !('0' <= c && c <= '9') {
            assert(body[i - start] == c);
            return None;
        }
        let d: u64 = (c as u64) - ('0' as u64);
        assert(v@.subrange(start as int, i + 1).drop_last() =~= v@.subrange(start as int, i as int));
        if d > max || acc > (max - d) / 10 {
            proof {
                assert(acc * 10 + d > max) by (nonlinear_arith)
                    requires d > max || acc > (max - d) / 10, acc >= 0;
                assert(digits_value(v@.subrange(start as int, i + 1)) == acc * 10 + d);
                if all_digits(body) {
                    assert(body.subrange(0, i + 1 - start) =~= v@.subrange(start as int, i + 1));
                    lemma_digits_value_monotone(body, i + 1 - start);
                }
            }
            return None;
        }
        proof {
            assert(acc * 10 + d <= max) by (nonlinear_arith)
                requires acc <= (max - d) / 10, d <= max;
        }
        acc = acc * 10 + d;
        i = i + 1;
    }
    assert(v@.subrange(start as int, i as int) =~= body);
    Some(acc)
}

/// `s` without leading and trailing white space (`str::trim`).
pub open spec fn spec_trim(s: Seq<char>) -> Seq<char> {
    let lo = leading_ws(s, 0);
    let hi = trailing_end(s, s.len() as int, lo);
    s.subrange(lo, hi)
}

/// The first position at or after `i` that holds no white space.
pub open spec fn leading_ws(s: Seq<char>, i: int) -> int
    decreases s.len() - i,
{
    if i < 0 || i >= s.len() {
        if i < 0 { 0 } else { s.len() as int }
    } else if spec_is_whitespace(s[i]) {
        leading_ws(s, i + 1)
    } else {
        i
    }
}

/// The end of `s` once trailing white space down to `lo` is dropped.
pub open spec fn trailing_end(s: Seq<char>, j: int, lo: int) -> int
    decreases j - lo,
{
    if j <= lo || j > s.len() {
        if j > s.len() { s.len() as int } else { lo }
    } else if spec_is_whitespace(s[j - 1]) {
        trailing_end(s, j - 1, lo)
    } else {
        j
    }
}

proof fn lemma_leading_ws(s: Seq<char>, i: int)
    requires
        0 <= i <= s.len(),
    ensures
        i <= leading_ws(s, i) <= s.len(),
    decreases s.len() - i,
{
    if i < s.len() && spec_is_whitespace(s[i]) {
        lemma_leading_ws(s, i + 1);
    }
}

proof fn lemma_trailing_end(s: Seq<char>, j: int, lo: int)
    requires
        0 <= lo <= j <= s.len(),
    ensures
        lo <= trailing_end(s, j, lo) <= j,
    decreases j - lo,
{
    if j > lo && spec_is_whitespace(s[j - 1]) {
        lemma_trailing_end(s, j - 1, lo);
    }
}

/// Drops leading and trailing white space.
pub fn trim_text(s: &str) -> (r: String)
    ensures
        r@ == spec_trim(s@),
{
    let v = chars_of(s);
    trim_chars(&v)
}

/// The characters without leading and trailing white space, as a string.
pub fn trim_chars(v: &Vec<char>) -> (r: String)
    ensures
        r@ == spec_trim(v@),
{
    let mut lo: usize = 0;
    while lo < v.len() && is_whitespace(v[lo])
        invariant
            lo <= v@.len(),
            leading_ws(v@, lo as int) == leading_ws(v@, 0),
        decreases v@.len() - lo,
    {
        lo = lo + 1;
    }
    assert(leading_ws(v@, lo as int) == lo);
    let mut hi: usize = v.len();
    while hi > lo && is_whitespace(v[hi - 1])
        invariant
            lo <= hi <= v@.len(),
            leading_ws(v@, 0) == lo,
            trailing_end(v@, hi as int, lo as int) == trailing_end(v@, v@.len() as int, lo as int),
        decreases hi,
    {
        hi = hi - 1;
    }
    assert(trailing_end(v@, hi as int, lo as int) == hi);
    let mut out: Vec<char> = Vec::new();
    let mut k = lo;
    while k < hi
        invariant
            lo <= k <= hi <= v@.len(),
            out@ == v@.subrange(lo as int, k as int),
        decreases hi - k,
    {
        out.push(v[k]);
        k = k + 1;
        assert(out@ =~= v@.subrange(lo as int, k as int));
    }
    proof {
        lemma_leading_ws(v@, 0);
    }
    string_of(out.as_slice())
}

/// The pieces of `s` between occurrences of `sep` (what `str::split` with a
/// character yields): one more piece than there are separators.
pub open spec fn split_on(s: Seq<char>, sep: char) -> Seq<Seq<char>>
    decreases s.len(),
{
    if s.len() == 0 {
        seq![Seq::<char>::empty()]
    } else {
        let p = split_on(s.drop_last(), sep);
        if s.last() == sep {
            p.push(Seq::<char>::empty())
        } else {
            p.update(p.len() - 1, p.last().push(s.last()))
        }
    }
}

/// Splitting always yields at least one piece.
pub proof fn lemma_split_nonempty(s: Seq<char>, sep: char)
    ensures
        split_on(s, sep).len() >= 1,
    decreases s.len(),
{
    if s.len() > 0 {
        lemma_split_nonempty(s.drop_last(), sep);
    }
}

/// Text without the separator is a single piece.
pub proof fn lemma_split_single(s: Seq<char>, sep: char)
    requires
        forall|i: int| 0 <= i < s.len() ==> s[i] != sep,
    ensures
        split_on(s, sep) == seq![s],
    decreases s.len(),
{
    if s.len() > 0 {
        lemma_split_single(s.drop_last(), sep);
        assert(s.drop_last().push(s.last()) =~= s);
        assert(split_on(s, sep) =~= seq![s]);
    } else {
        assert(s =~= Seq::<char>::empty());
    }
}

/// Splitting `x`, a separator, then `y` gives the pieces of `x` followed by those of `y`.
pub proof fn lemma_split_concat(x: Seq<char>, sep: char, y: Seq<char>)
    ensures
        split_on(x + seq![sep] + y, sep) == split_on(x, sep) + split_on(y, sep),
    decreases y.len(),
{
    lemma_split_nonempty(x, sep);
    lemma_split_nonempty(y, sep);
    let whole = x + seq![sep] + y;
    if y.len() == 0 {
        assert(whole.drop_last() =~= x);
        assert(split_on(x + seq![sep] + y, sep) =~= split_on(x, sep) + split_on(y, sep));
    } else {
        let y1 = y.drop_last();
        lemma_split_concat(x, sep, y1);
        lemma_split_nonempty(y1, sep);
        assert(whole.drop_last() =~= x + seq![sep] + y1);
        assert(whole.last() == y.last());
        assert(split_on(x + seq![sep] + y, sep) =~= split_on(x, sep) + split_on(y, sep));
    }
}

/// Splits a character sequence at every `sep`.
pub fn split_chars(v: &Vec<char>, sep: char) -> (r: Vec<Vec<char>>)
    ensures
        r@.len() == split_on(v@, sep).len(),
        forall|i: int| 0 <= i < r@.len() ==> #[trigger] r@[i]@ == split_on(v@, sep)[i],
{
    let mut parts: Vec<Vec<char>> = Vec::new();
    let mut cur: Vec<char> = Vec::new();
    let mut i: usize = 0;
    while i < v.len()
        invariant
            i <= v@.len(),
            parts@.len() + 1 == split_on(v@.subrange(0, i as int), sep).len(),
            forall|j: int| 0 <= j < parts@.len() ==> #[trigger] parts@[j]@ == split_on(v@.subrange(0, i as int), sep)[j],
            cur@ == split_on(v@.subrange(0, i as int), sep).last(),
        decreases v@.len() - i,
    {
        proof {
            lemma_split_nonempty(v@.subrange(0, i as int), sep);
        }
        assert(v@.subrange(0, i + 1).drop_last() =~= v@.subrange(0, i as int));
        if v[i] == sep {
            parts.push(cur);
            cur = Vec::new();
        } else {
            cur.push(v[i]);
        }
        i = i + 1;
    }
    assert(v@.subrange(0, i as int) =~= v@);
    parts.push(cur);
    parts
}

proof fn lemma_digit_char(d: nat)
    requires
        d < 10,
    ensures
        digit_char(d) as int - '0' as int == d,
        '0' <= digit_char(d) <= '9',
{
}

/// The decimal text of a number is a run of digits that reads back as the number.
pub proof fn lemma_decimal_digits(n: nat)
    ensures
        decimal(n).len() >= 1,
        all_digits(decimal(n)),
        digits_value(decimal(n)) == n,
        '0' <= decimal(n)[0] <= '9',
    decreases n,
{
    lemma_digit_char(n % 10);
    if n < 10 {
        assert(decimal(n).drop_last() =~= Seq::<char>::empty());
    }
    if n >= 10 {
        lemma_decimal_digits(n / 10);
        let d = decimal(n);
        assert(d.drop_last() =~= decimal(n / 10));
        assert(d[0] == decimal(n / 10)[0]);
        assert(d.last() == digit_char(n % 10));
        assert(digits_value(d) == digits_value(d.drop_last()) * 10 + ((d.last() as int - '0' as int) as nat));
        assert(digits_value(d) == (n / 10) * 10 + n % 10);
    } else {
        let d = decimal(n);
        assert(d.last() == digit_char(n));
        assert(digits_value(d) == digits_value(d.drop_last()) * 10 + ((d.last() as int - '0' as int) as nat));
    }
}

/// Parsing the decimal text of a number within bounds gives the number back.
pub proof fn lemma_parse_decimal(n: nat, max: nat)
    requires
        n <= max,
    ensures
        parse_unsigned(decimal(n), max) == Some(n),
{
    lemma_decimal_digits(n);
}


/// Whether `a` comes before `b` in the order of `str`: character by character
/// by code point, a proper prefix first.
pub open spec fn text_lt(a: Seq<char>, b: Seq<char>) -> bool
    decreases a.len(),
{
    if b.len() == 0 {
        false
    } else if a.len() == 0 {
        true
    } else if a[0] != b[0] {
        (a[0] as int) < (b[0] as int)
    } else {
        text_lt(a.drop_first(), b.drop_first())
    }
}

/// Two texts are equal or one comes before the other, and never both ways.
pub proof fn lemma_text_lt_total(a: Seq<char>, b: Seq<char>)
    ensures
        a == b || text_lt(a, b) || text_lt(b, a),
        !(text_lt(a, b) && text_lt(b, a)),
        !text_lt(a, a),
    decreases a.len(),
{
    if a.len() > 0 && b.len() > 0 {
        lemma_text_lt_total(a.drop_first(), b.drop_first());
        if a[0] == b[0] && a.drop_first() == b.drop_first() {
            assert(a =~= seq![a[0]] + a.drop_first());
            assert(b =~= seq![b[0]] + b.drop_first());
        }
        lemma_text_lt_total(a.drop_first(), a.drop_first());
    } else if a.len() == 0 && b.len() == 0 {
        assert(a =~= b);
    } else if a.len() > 0 {
        lemma_text_lt_total(a.drop_first(), a.drop_first());
    }
}

/// The order of texts is transitive.
pub proof fn lemma_text_lt_transitive(a: Seq<char>, b: Seq<char>, c: Seq<char>)
    requires
        text_lt(a, b),
        text_lt(b, c),
    ensures
        text_lt(a, c),
    decreases a.len(),
{
    if a.len() > 0 && a[0] == b[0] && b[0] == c[0] {
        lemma_text_lt_transitive(a.drop_first(), b.drop_first(), c.drop_first());
    }
}

/// The code point of a character.
fn code_point(c: char) -> (n: u32)
    ensures
        n as int == c as int,
{
    c as u32
}

/// Whether `a` comes before `b` in the order of `str`.
pub fn less_text(a: &str, b: &str) -> (r: bool)
    ensures
        r == text_lt(a@, b@),
{
    let x = chars_of(a);
    let y = chars_of(b);
    let mut i: usize = 0;
    assert(x@.subrange(0, x@.len() as int) =~= x@);
    assert(y@.subrange(0, y@.len() as int) =~= y@);
    while i < x.len() && i < y.len()
        invariant
            x@ == a@,
            y@ == b@,
            i <= x@.len(),
            i <= y@.len(),
            text_lt(a@, b@) == text_lt(x@.subrange(i as int, x@.len() as int), y@.subrange(i as int, y@.len() as int)),
        decreases x@.len() - i,
    {
        let ghost xs = x@.subrange(i as int, x@.len() as int);
        let ghost ys = y@.subrange(i as int, y@.len() as int);
        assert(xs[0] == x@[i as int] && ys[0] == y@[i as int]);
        if x[i] != y[i] {
            return code_point(x[i]) < code_point(y[i]);
        }
        assert(xs.drop_first() =~= x@.subrange(i + 1, x@.len() as int));
        assert(ys.drop_first() =~= y@.subrange(i + 1, y@.len() as int));
        i = i + 1;
    }
    i < y.len()
}


/// The texts with `sep` between each two (what `join` on a slice of strings gives).
pub open spec fn join(items: Seq<Seq<char>>, sep: Seq<char>) -> Seq<char>
    decreases items.len(),
{
    if items.len() == 0 {
        Seq::empty()
    } else if items.len() == 1 {
        items[0]
    } else {
        join(items.drop_last(), sep) + sep + items.last()
    }
}

/// Joins the texts with `sep` between each two.
pub fn join_texts(items: &Vec<String>, sep: &str) -> (r: String)
    ensures
        r@ == join(items@.map_values(|s: String| s@), sep@),
{
    let ghost v = items@.map_values(|s: String| s@);
    let mut r = String::new();
    let mut i: usize = 0;
    while i < items.len()
        invariant
            i <= items@.len(),
            v == items@.map_values(|s: String| s@),
            r@ == join(v.subrange(0, i as int), sep@),
        decreases items@.len() - i,
    {
        proof {
            assert(v.subrange(0, i + 1).drop_last() =~= v.subrange(0, i as int));
            assert(v.subrange(0, i + 1).last() == items@[i as int]@);
        }
        if i > 0 {
            r.append(sep);
        }
        r.append(items[i].as_str());
        proof {
            if i == 0 {
                assert(v.subrange(0, 1).len() == 1);
                assert(r@ =~= join(v.subrange(0, 1), sep@));
            }
        }
        i = i + 1;
    }
    assert(v.subrange(0, items@.len() as int) =~= v);
    r
}

} // verus!
