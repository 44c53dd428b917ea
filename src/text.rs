//! Decimal rendering and parsing of integers, and small string helpers.
use vstd::prelude::*;

verus! {

/// The character of a decimal digit.
pub open spec fn digit_char(d: nat) -> char {
    if d == 0 {
        '0'
    } else if d == 1 {
        '1'
    } else if d == 2 {
        '2'
    } else if d == 3 {
        '3'
    } else if d == 4 {
        '4'
    } else if d == 5 {
        '5'
    } else if d == 6 {
        '6'
    } else if d == 7 {
        '7'
    } else if d == 8 {
        '8'
    } else {
        '9'
    }
}

/// The value of a decimal digit character.
pub open spec fn digit_value(c: char) -> nat {
    (c as u32 - '0' as u32) as nat
}

pub open spec fn is_digit(c: char) -> bool {
    '0' <= c && c <= '9'
}

/// The shortest decimal text of `n`.
pub open spec fn decimal(n: nat) -> Seq<char>
    decreases n,
{
    if n < 10 {
        seq![digit_char(n)]
    } else {
        decimal(n / 10).push(digit_char(n % 10))
    }
}

/// The decimal text of a signed integer, with a leading `-` when negative.
pub open spec fn signed_decimal(i: int) -> Seq<char> {
    if i < 0 {
        seq!['-'] + decimal((-i) as nat)
    } else {
        decimal(i as nat)
    }
}

/// The value of a sequence of decimal digits.
pub open spec fn digits_value(s: Seq<char>) -> nat
    decreases s.len(),
{
    if s.len() == 0 {
        0
    } else {
        digits_value(s.drop_last()) * 10 + digit_value(s.last())
    }
}

pub open spec fn all_digits(s: Seq<char>) -> bool {
    forall|i: int| 0 <= i < s.len() ==> is_digit(#[trigger] s[i])
}

/// The magnitude written by a non-empty run of digits, or `None`.
pub open spec fn digits_number(s: Seq<char>) -> Option<nat> {
    if s.len() > 0 && all_digits(s) {
        Some(digits_value(s))
    } else {
        None
    }
}

/// The magnitude written by a non-empty run of digits, when it is at most `max`.
pub open spec fn bounded_number(s: Seq<char>, max: nat) -> Option<nat> {
    match digits_number(s) {
        Some(v) => if v <= max {
            Some(v)
        } else {
            None
        },
        None => None,
    }
}

/// An unsigned decimal with an optional leading `+`, bounded by `max`.
pub open spec fn parse_unsigned(s: Seq<char>, max: nat) -> Option<nat> {
    if s.len() > 0 && s[0] == '+' {
        bounded_number(s.drop_first(), max)
    } else {
        bounded_number(s, max)
    }
}

/// A signed decimal with an optional leading `+` or `-`, within `i64`.
pub open spec fn parse_signed(s: Seq<char>) -> Option<int> {
    if s.len() > 0 && s[0] == '-' {
        match bounded_number(s.drop_first(), 0x8000_0000_0000_0000) {
            Some(v) => Some(-v),
            None => None,
        }
    } else {
        match parse_unsigned(s, 0x7fff_ffff_ffff_ffff) {
            Some(v) => Some(v as int),
            None => None,
        }
    }
}

/// `true` or `false`, and nothing else.
pub open spec fn parse_bool(s: Seq<char>) -> Option<bool> {
    if s == "true"@ {
        Some(true)
    } else if s == "false"@ {
        Some(false)
    } else {
        None
    }
}

pub open spec fn bool_text(b: bool) -> Seq<char> {
    if b {
        "true"@
    } else {
        "false"@
    }
}

/// Relies on `String::push`: the character is appended at the end.
#[verifier::external_body]
pub(crate) fn push_char(s: &mut String, c: char)
    ensures
        final(s)@ == old(s)@.push(c),
{
    s.push(c)
}

fn digit_to_char(d: u64) -> (c: char)
    requires
        d < 10,
    ensures
        c == digit_char(d as nat),
{
    if d == 0 {
        '0'
    } else if d == 1 {
        '1'
    } else if d == 2 {
        '2'
    } else if d == 3 {
        '3'
    } else if d == 4 {
        '4'
    } else if d == 5 {
        '5'
    } else if d == 6 {
        '6'
    } else if d == 7 {
        '7'
    } else if d == 8 {
        '8'
    } else {
        '9'
    }
}

/// Appends the decimal text of `n`.
pub fn write_decimal(out: &mut String, n: u64)
    ensures
        final(out)@ == old(out)@ + decimal(n as nat),
    decreases n,
{
    if n >= 10 {
        write_decimal(out, n / 10);
    }
    push_char(out, digit_to_char(n % 10));
    proof {
        assert(old(out)@ + decimal(n as nat) =~= final(out)@) by {
            if n >= 10 {
                assert(decimal(n as nat) == decimal((n / 10) as nat).push(digit_char((n % 10) as nat)));
            }
        }
    }
}

/// The decimal text of an unsigned integer.
pub fn u64_text(n: u64) -> (r: String)
    ensures
        r@ == decimal(n as nat),
{
    let mut out = String::new();
    write_decimal(&mut out, n);
    assert(out@ =~= decimal(n as nat));
    out
}

/// The decimal text of a signed integer.
pub fn i64_text(n: i64) -> (r: String)
    ensures
        r@ == signed_decimal(n as int),
{
    let mut out = String::new();
    if n < 0 {
        push_char(&mut out, '-');
        let m: i128 = 0i128 - n as i128;
        write_decimal(&mut out, m as u64);
    } else {
        write_decimal(&mut out, n as u64);
    }
    assert(out@ =~= signed_decimal(n as int));
    out
}

/// `true` or `false`.
pub fn bool_string(b: bool) -> (r: String)
    ensures
        r@ == bool_text(b),
{
    if b {
        String::from_str("true")
    } else {
        String::from_str("false")
    }
}

proof fn lemma_digits_value_prefix(t: Seq<char>, k: int)
    requires
        0 <= k <= t.len(),
    ensures
        digits_value(t.take(k)) <= digits_value(t),
    decreases t.len(),
{
    if k < t.len() {
        lemma_digits_value_prefix(t.drop_last(), k);
        assert(t.drop_last().take(k) =~= t.take(k));
    } else {
        assert(t.take(k) =~= t);
    }
}

fn char_digit(c: char) -> (r: Option<u64>)
    ensures
        r matches Some(d) ==> is_digit(c) && d == digit_value(c) && d < 10,
        r is None ==> !is_digit(c),
{
    if '0' <= c && c <= '9' {
        Some((c as u32 - '0' as u32) as u64)
    } else {
        None
    }
}

/// Reads the digits of `s` from `start` to its end, as a number at most `max`.
fn parse_digits(s: &str, start: usize, max: u64) -> (r: Option<u64>)
    requires
        start <= s@.len(),
    ensures
        r matches Some(v) ==> bounded_number(s@.subrange(start as int, s@.len() as int), max as nat)
            == Some(v as nat),
        r is None ==> bounded_number(s@.subrange(start as int, s@.len() as int), max as nat) is None,
{
    let len = s.unicode_len();
    let ghost body = s@.subrange(start as int, len as int);
    if start == len {
        return None;
    }
    let mut acc: u64 = 0;
    let mut i: usize = start;
    while i < len
        invariant
            start <= i <= len,
            len == s@.len(),
            body == s@.subrange(start as int, len as int),
            acc <= max,
            acc == digits_value(s@.subrange(start as int, i as int)),
            all_digits(s@.subrange(start as int, i as int)),
        decreases len - i,
    {
        let c = s.get_char(i);
        let ghost before = s@.subrange(start as int, i as int);
        let ghost after = s@.subrange(start as int, i + 1);
        assert(after.drop_last() =~= before);
        match char_digit(c) {
            None => {
                assert(!is_digit(body[i - start]));
                return None;
            },
            Some(d) => {
                let next: u128 = acc as u128 * 10 + d as u128;
                if next > max as u128 {
                    proof {
                        if all_digits(body) {
                            assert(body.take(i + 1 - start) =~= after);
                            lemma_digits_value_prefix(body, i + 1 - start);
                        }
                    }
                    return None;
                }
                acc = next as u64;
                i = i + 1;
                assert(all_digits(after)) by {
                    assert forall|j: int| 0 <= j < after.len() implies is_digit(#[trigger] after[j]) by {
                        if j < before.len() {
                            assert(after[j] == before[j]);
                        }
                    }
                }
            },
        }
    }
    Some(acc)
}

/// Parses an unsigned decimal, with an optional leading `+`, that is at most `max`.
pub fn parse_unsigned_text(s: &str, max: u64) -> (r: Option<u64>)
    ensures
        r matches Some(v) ==> parse_unsigned(s@, max as nat) == Some(v as nat),
        r is None ==> parse_unsigned(s@, max as nat) is None,
{
    let len = s.unicode_len();
    if len > 0 && s.get_char(0) == '+' {
        assert(s@.subrange(1, len as int) =~= s@.drop_first());
        parse_digits(s, 1, max)
    } else {
        assert(s@.subrange(0, len as int) =~= s@);
        parse_digits(s, 0, max)
    }
}

/// Parses a signed decimal, with an optional leading `+` or `-`, into an `i64`.
pub fn parse_signed_text(s: &str) -> (r: Option<i64>)
    ensures
        r matches Some(v) ==> parse_signed(s@) == Some(v as int),
        r is None ==> parse_signed(s@) is None,
{
    let len = s.unicode_len();
    if len > 0 && s.get_char(0) == '-' {
        assert(s@.subrange(1, len as int) =~= s@.drop_first());
        match parse_digits(s, 1, 0x8000_0000_0000_0000) {
            Some(v) => {
                let r: i128 = 0i128 - v as i128;
                Some(r as i64)
            },
            None => None,
        }
    } else {
        match parse_unsigned_text(s, 0x7fff_ffff_ffff_ffff) {
            Some(v) => Some(v as i64),
            None => None,
        }
    }
}

/// Parses `true` or `false`.
pub fn parse_bool_text(s: &str) -> (r: Option<bool>)
    ensures
        r == parse_bool(s@),
{
    let t = String::from_str("true");
    let f = String::from_str("false");
    let owned = String::from_str(s);
    if owned == t {
        Some(true)
    } else if owned == f {
        Some(false)
    } else {
        None
    }
}

/// `name` appended to the path `root`, as a path join does it: an absolute
/// `name` replaces `root`, and one separator stands between the two.
pub open spec fn join_path(root: Seq<char>, name: Seq<char>) -> Seq<char> {
    if name.len() > 0 && name[0] == '/' {
        name
    } else if root.len() == 0 {
        name
    } else if root.last() == '/' {
        root + name
    } else {
        root + seq!['/'] + name
    }
}

/// Joins `name` onto the path `root`.
pub fn join_path_text(root: &str, name: &str) -> (r: String)
    ensures
        r@ == join_path(root@, name@),
{
    let name_len = name.unicode_len();
    let root_len = root.unicode_len();
    if name_len > 0 && name.get_char(0) == '/' {
        String::from_str(name)
    } else if root_len == 0 {
        String::from_str(name)
    } else if root.get_char(root_len - 1) == '/' {
        String::from_str(root).concat(name)
    } else {
        let mut out = String::from_str(root);
        push_char(&mut out, '/');
        out.concat(name)
    }
}

} // verus!
