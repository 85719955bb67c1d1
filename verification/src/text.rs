//! Character-level helpers: decimal formatting and parsing of unsigned
//! integers, and the character classes used by the placeholder grammar.

use vstd::prelude::*;
use vstd::string::*;

verus! {

/// Unicode `White_Space`, the class that `\s` names in the placeholder
/// grammar.
pub open spec fn is_white_space(c: char) -> bool {
    let u = c as u32;
    ||| (0x9 <= u && u <= 0xd)
    ||| u == 0x20
    ||| u == 0x85
    ||| u == 0xa0
    ||| u == 0x1680
    ||| (0x2000 <= u && u <= 0x200a)
    ||| u == 0x2028
    ||| u == 0x2029
    ||| u == 0x202f
    ||| u == 0x205f
    ||| u == 0x3000
}

/// Decides `is_white_space`.
pub fn white_space(c: char) -> (r: bool)
    ensures
        r == is_white_space(c),
{
    let u = c as u32;
    (0x9 <= u && u <= 0xd) || u == 0x20 || u == 0x85 || u == 0xa0 || u == 0x1680
        || (0x2000 <= u && u <= 0x200a) || u == 0x2028 || u == 0x2029 || u == 0x202f
        || u == 0x205f || u == 0x3000
}

/// Unicode general category `Nd` (decimal number), the class that `\d`
/// names in the placeholder grammar.
pub open spec fn is_decimal_digit(c: char) -> bool {
    let u = c as u32;
        ||| (0x30 <= u && u <= 0x39)
        ||| (0x660 <= u && u <= 0x669)
        ||| (0x6f0 <= u && u <= 0x6f9)
        ||| (0x7c0 <= u && u <= 0x7c9)
        ||| (0x966 <= u && u <= 0x96f)
        ||| (0x9e6 <= u && u <= 0x9ef)
        ||| (0xa66 <= u && u <= 0xa6f)
        ||| (0xae6 <= u && u <= 0xaef)
        ||| (0xb66 <= u && u <= 0xb6f)
        ||| (0xbe6 <= u && u <= 0xbef)
        ||| (0xc66 <= u && u <= 0xc6f)
        ||| (0xce6 <= u && u <= 0xcef)
        ||| (0xd66 <= u && u <= 0xd6f)
        ||| (0xde6 <= u && u <= 0xdef)
        ||| (0xe50 <= u && u <= 0xe59)
        ||| (0xed0 <= u && u <= 0xed9)
        ||| (0xf20 <= u && u <= 0xf29)
        ||| (0x1040 <= u && u <= 0x1049)
        ||| (0x1090 <= u && u <= 0x1099)
        ||| (0x17e0 <= u && u <= 0x17e9)
        ||| (0x1810 <= u && u <= 0x1819)
        ||| (0x1946 <= u && u <= 0x194f)
        ||| (0x19d0 <= u && u <= 0x19d9)
        ||| (0x1a80 <= u && u <= 0x1a89)
        ||| (0x1a90 <= u && u <= 0x1a99)
        ||| (0x1b50 <= u && u <= 0x1b59)
        ||| (0x1bb0 <= u && u <= 0x1bb9)
        ||| (0x1c40 <= u && u <= 0x1c49)
        ||| (0x1c50 <= u && u <= 0x1c59)
        ||| (0xa620 <= u && u <= 0xa629)
        ||| (0xa8d0 <= u && u <= 0xa8d9)
        ||| (0xa900 <= u && u <= 0xa909)
        ||| (0xa9d0 <= u && u <= 0xa9d9)
        ||| (0xa9f0 <= u && u <= 0xa9f9)
        ||| (0xaa50 <= u && u <= 0xaa59)
        ||| (0xabf0 <= u && u <= 0xabf9)
        ||| (0xff10 <= u && u <= 0xff19)
        ||| (0x104a0 <= u && u <= 0x104a9)
        ||| (0x10d30 <= u && u <= 0x10d39)
        ||| (0x10d40 <= u && u <= 0x10d49)
        ||| (0x11066 <= u && u <= 0x1106f)
        ||| (0x110f0 <= u && u <= 0x110f9)
        ||| (0x11136 <= u && u <= 0x1113f)
        ||| (0x111d0 <= u && u <= 0x111d9)
        ||| (0x112f0 <= u && u <= 0x112f9)
        ||| (0x11450 <= u && u <= 0x11459)
        ||| (0x114d0 <= u && u <= 0x114d9)
        ||| (0x11650 <= u && u <= 0x11659)
        ||| (0x116c0 <= u && u <= 0x116c9)
        ||| (0x116d0 <= u && u <= 0x116e3)
        ||| (0x11730 <= u && u <= 0x11739)
        ||| (0x118e0 <= u && u <= 0x118e9)
        ||| (0x11950 <= u && u <= 0x11959)
        ||| (0x11bf0 <= u && u <= 0x11bf9)
        ||| (0x11c50 <= u && u <= 0x11c59)
        ||| (0x11d50 <= u && u <= 0x11d59)
        ||| (0x11da0 <= u && u <= 0x11da9)
        ||| (0x11f50 <= u && u <= 0x11f59)
        ||| (0x16130 <= u && u <= 0x16139)
        ||| (0x16a60 <= u && u <= 0x16a69)
        ||| (0x16ac0 <= u && u <= 0x16ac9)
        ||| (0x16b50 <= u && u <= 0x16b59)
        ||| (0x16d70 <= u && u <= 0x16d79)
        ||| (0x1ccf0 <= u && u <= 0x1ccf9)
        ||| (0x1d7ce <= u && u <= 0x1d7ff)
        ||| (0x1e140 <= u && u <= 0x1e149)
        ||| (0x1e2f0 <= u && u <= 0x1e2f9)
        ||| (0x1e4f0 <= u && u <= 0x1e4f9)
        ||| (0x1e5f1 <= u && u <= 0x1e5fa)
        ||| (0x1e950 <= u && u <= 0x1e959)
        ||| (0x1fbf0 <= u && u <= 0x1fbf9)
}

/// Decides `is_decimal_digit`.
pub fn decimal_digit(c: char) -> (r: bool)
    ensures
        r == is_decimal_digit(c),
{
    let u = c as u32;
        (0x30 <= u && u <= 0x39)
        || (0x660 <= u && u <= 0x669)
        || (0x6f0 <= u && u <= 0x6f9)
        || (0x7c0 <= u && u <= 0x7c9)
        || (0x966 <= u && u <= 0x96f)
        || (0x9e6 <= u && u <= 0x9ef)
        || (0xa66 <= u && u <= 0xa6f)
        || (0xae6 <= u && u <= 0xaef)
        || (0xb66 <= u && u <= 0xb6f)
        || (0xbe6 <= u && u <= 0xbef)
        || (0xc66 <= u && u <= 0xc6f)
        || (0xce6 <= u && u <= 0xcef)
        || (0xd66 <= u && u <= 0xd6f)
        || (0xde6 <= u && u <= 0xdef)
        || (0xe50 <= u && u <= 0xe59)
        || (0xed0 <= u && u <= 0xed9)
        || (0xf20 <= u && u <= 0xf29)
        || (0x1040 <= u && u <= 0x1049)
        || (0x1090 <= u && u <= 0x1099)
        || (0x17e0 <= u && u <= 0x17e9)
        || (0x1810 <= u && u <= 0x1819)
        || (0x1946 <= u && u <= 0x194f)
        || (0x19d0 <= u && u <= 0x19d9)
        || (0x1a80 <= u && u <= 0x1a89)
        || (0x1a90 <= u && u <= 0x1a99)
        || (0x1b50 <= u && u <= 0x1b59)
        || (0x1bb0 <= u && u <= 0x1bb9)
        || (0x1c40 <= u && u <= 0x1c49)
        || (0x1c50 <= u && u <= 0x1c59)
        || (0xa620 <= u && u <= 0xa629)
        || (0xa8d0 <= u && u <= 0xa8d9)
        || (0xa900 <= u && u <= 0xa909)
        || (0xa9d0 <= u && u <= 0xa9d9)
        || (0xa9f0 <= u && u <= 0xa9f9)
        || (0xaa50 <= u && u <= 0xaa59)
        || (0xabf0 <= u && u <= 0xabf9)
        || (0xff10 <= u && u <= 0xff19)
        || (0x104a0 <= u && u <= 0x104a9)
        || (0x10d30 <= u && u <= 0x10d39)
        || (0x10d40 <= u && u <= 0x10d49)
        || (0x11066 <= u && u <= 0x1106f)
        || (0x110f0 <= u && u <= 0x110f9)
        || (0x11136 <= u && u <= 0x1113f)
        || (0x111d0 <= u && u <= 0x111d9)
        || (0x112f0 <= u && u <= 0x112f9)
        || (0x11450 <= u && u <= 0x11459)
        || (0x114d0 <= u && u <= 0x114d9)
        || (0x11650 <= u && u <= 0x11659)
        || (0x116c0 <= u && u <= 0x116c9)
        || (0x116d0 <= u && u <= 0x116e3)
        || (0x11730 <= u && u <= 0x11739)
        || (0x118e0 <= u && u <= 0x118e9)
        || (0x11950 <= u && u <= 0x11959)
        || (0x11bf0 <= u && u <= 0x11bf9)
        || (0x11c50 <= u && u <= 0x11c59)
        || (0x11d50 <= u && u <= 0x11d59)
        || (0x11da0 <= u && u <= 0x11da9)
        || (0x11f50 <= u && u <= 0x11f59)
        || (0x16130 <= u && u <= 0x16139)
        || (0x16a60 <= u && u <= 0x16a69)
        || (0x16ac0 <= u && u <= 0x16ac9)
        || (0x16b50 <= u && u <= 0x16b59)
        || (0x16d70 <= u && u <= 0x16d79)
        || (0x1ccf0 <= u && u <= 0x1ccf9)
        || (0x1d7ce <= u && u <= 0x1d7ff)
        || (0x1e140 <= u && u <= 0x1e149)
        || (0x1e2f0 <= u && u <= 0x1e2f9)
        || (0x1e4f0 <= u && u <= 0x1e4f9)
        || (0x1e5f1 <= u && u <= 0x1e5fa)
        || (0x1e950 <= u && u <= 0x1e959)
        || (0x1fbf0 <= u && u <= 0x1fbf9)
}

/// An ASCII digit, the only digits that an unsigned integer's text form holds.
pub open spec fn is_ascii_digit(c: char) -> bool {
    '0' <= c && c <= '9'
}

/// Every character of `s` is an ASCII digit.
pub open spec fn all_ascii_digits(s: Seq<char>) -> bool {
    forall|i: int| 0 <= i < s.len() ==> is_ascii_digit(#[trigger] s[i])
}

/// The value of a run of ASCII digits, read in base ten.
pub open spec fn digits_value(s: Seq<char>) -> nat
    decreases s.len(),
{
    if s.len() == 0 {
        0
    } else {
        digits_value(s.drop_last()) * 10 + ((s.last() as int) - 48) as nat
    }
}

/// What `str::parse` gives for an unsigned integer type whose largest value
/// is `max`: an optional `+` sign followed by at least one ASCII digit, whose
/// value does not exceed `max`; anything else is an error (`None`).
pub open spec fn parse_unsigned(s: Seq<char>, max: nat) -> Option<nat> {
    let body = if s.len() > 1 && s[0] == '+' {
        s.drop_first()
    } else {
        s
    };
    if body.len() > 0 && all_ascii_digits(body) && digits_value(body) <= max {
        Some(digits_value(body))
    } else {
        None
    }
}

/// The ASCII digit character for a value below ten.
pub open spec fn digit_char(d: nat) -> char {
    (d + 48) as char
}

/// The decimal representation of `n`, most significant digit first, with no
/// leading zeros (the representation of zero is `"0"`).
pub open spec fn decimal(n: nat) -> Seq<char>
    decreases n,
{
    if n < 10 {
        seq![digit_char(n)]
    } else {
        decimal(n / 10).push(digit_char(n % 10))
    }
}

/// Appends one character to a string (`String::push`).
#[verifier::external_body]
pub(crate) fn push_char(s: &mut String, c: char)
    ensures
        final(s)@ == old(s)@.push(c),
{
    s.push(c);
}

/// The decimal representation of `n`, as `n.to_string()` writes it.
pub fn usize_to_decimal(n: usize) -> (r: String)
    ensures
        r@ == decimal(n as nat),
    decreases n,
{
    if n < 10 {
        let mut s = String::new();
        let c: char = ((n as u8) + 48u8) as char;
        push_char(&mut s, c);
        assert(s@ =~= decimal(n as nat));
        s
    } else {
        let mut s = usize_to_decimal(n / 10);
        let d: usize = n % 10;
        let c: char = ((d as u8) + 48u8) as char;
        push_char(&mut s, c);
        s
    }
}


/// `parse_unsigned` of a decimal representation gives the number back, for
/// every number that fits under the bound.
pub proof fn lemma_decimal_parse_roundtrip(n: nat, max: nat)
    requires
        n <= max,
    ensures
        parse_unsigned(decimal(n), max) == Some(n),
{
    lemma_decimal_digits(n);
}

/// A decimal representation is a non-empty run of ASCII digits whose value is
/// the number it represents.
pub proof fn lemma_decimal_digits(n: nat)
    ensures
        decimal(n).len() >= 1,
        all_ascii_digits(decimal(n)),
        digits_value(decimal(n)) == n,
    decreases n,
{
    if n >= 10 {
        lemma_decimal_digits(n / 10);
        let s = decimal(n);
        assert(s.drop_last() =~= decimal(n / 10));
        assert(s.last() == digit_char(n % 10));
        assert(digit_char(n % 10) as int == n % 10 + 48);
        assert(n == (n / 10) * 10 + n % 10);
        assert(digits_value(s) == digits_value(decimal(n / 10)) * 10 + n % 10);
        assert forall|i: int| 0 <= i < s.len() implies is_ascii_digit(#[trigger] s[i]) by {
            if i < s.len() - 1 {
                assert(s[i] == decimal(n / 10)[i]);
            }
        }
    } else {
        assert(decimal(n).drop_last() =~= Seq::<char>::empty());
        assert(digit_char(n) as int == n + 48);
        assert(digits_value(decimal(n)) == digits_value(Seq::<char>::empty()) * 10 + n);
    }
}

/// The value of a run of digits is at least the value of any of its
/// prefixes.
proof fn lemma_digits_value_prefix(s: Seq<char>, k: int)
    requires
        0 <= k <= s.len(),
        all_ascii_digits(s),
    ensures
        digits_value(s.take(k)) <= digits_value(s),
    decreases s.len(),
{
    if k < s.len() {
        let t = s.drop_last();
        assert(all_ascii_digits(t)) by {
            assert forall|i: int| 0 <= i < t.len() implies is_ascii_digit(#[trigger] t[i]) by {
                assert(t[i] == s[i]);
            }
        }
        lemma_digits_value_prefix(t, k);
        assert(t.take(k) =~= s.take(k));
        assert(is_ascii_digit(s[s.len() - 1]));
    } else {
        assert(s.take(k) =~= s);
    }
}

/// Reads an unsigned integer no larger than `max` the way `str::parse` does
/// for an integer type whose largest value is `max`.
pub fn parse_bounded(s: &Vec<char>, max: u64) -> (r: Option<u64>)
    ensures
        parse_unsigned(s@, max as nat) == (match r {
            Some(v) => Some(v as nat),
            None => None::<nat>,
        }),
{
    let n = s.len();
    let mut start: usize = 0;
    if n > 1 && s[0] == '+' {
        start = 1;
    }
    let ghost body = s@.subrange(start as int, n as int);
    assert(body =~= (if s@.len() > 1 && s@[0] == '+' { s@.drop_first() } else { s@ }));
    if start == n {
        return None;
    }
    let mut acc: u64 = 0;
    let mut i: usize = start;
    while i < n
        invariant
            start <= i <= n,
            n == s@.len(),
            body == s@.subrange(start as int, n as int),
            body == (if s@.len() > 1 && s@[0] == '+' { s@.drop_first() } else { s@ }),
            all_ascii_digits(s@.subrange(start as int, i as int)),
            acc as nat == digits_value(s@.subrange(start as int, i as int)),
            acc <= max,
        decreases n - i,
    {
        let c = s[i];
        if !('0' <= c && c <= '9') {
            assert(body[i - start] == c);
            assert(!is_ascii_digit(body[i - start]));
            return None;
        }
        let d: u64 = (c as u32 - 48u32) as u64;
        let ghost pre = s@.subrange(start as int, i as int);
        let ghost next = s@.subrange(start as int, i + 1);
        assert(next.drop_last() =~= pre);
        assert(next.last() == c);
        assert(all_ascii_digits(next)) by {
            assert forall|j: int| 0 <= j < next.len() implies is_ascii_digit(#[trigger] next[j]) by {
                if j < pre.len() {
                    assert(next[j] == pre[j]);
                }
            }
        }
        assert(digits_value(next) == acc * 10 + d);
        if d > max || acc > (max - d) / 10 {
            assert(acc * 10 + d > max) by (nonlinear_arith)
                requires
                    d > max || acc > (max - d) / 10,
                    d <= 9,
            ;
            proof {
                if all_ascii_digits(body) {
                    assert(body.take((i + 1 - start) as int) =~= next);
                    lemma_digits_value_prefix(body, (i + 1 - start) as int);
                }
            }
            return None;
        }
        assert(acc * 10 + d <= max) by (nonlinear_arith)
            requires
                d <= max,
                acc <= (max - d) / 10,
                d <= 9,
        ;
        acc = acc * 10 + d;
        i = i + 1;
    }
    assert(s@.subrange(start as int, n as int) =~= body);
    Some(acc)
}

/// Reads an unsigned integer the way `str::parse::<usize>` does.
pub fn parse_usize(s: &Vec<char>) -> (r: Option<usize>)
    ensures
        parse_unsigned(s@, usize::MAX as nat) == (match r {
            Some(v) => Some(v as nat),
            None => None::<nat>,
        }),
{
    match parse_bounded(s, usize::MAX as u64) {
        Some(v) => Some(v as usize),
        None => None,
    }
}

/// Reads an unsigned integer the way `str::parse::<u64>` does.
pub fn parse_u64(s: &Vec<char>) -> (r: Option<u64>)
    ensures
        parse_unsigned(s@, u64::MAX as nat) == (match r {
            Some(v) => Some(v as nat),
            None => None::<nat>,
        }),
{
    parse_bounded(s, u64::MAX)
}

/// The characters of a string slice, in order.
pub fn chars_of(s: &str) -> (v: Vec<char>)
    ensures
        v@ == s@,
{
    let n = s.unicode_len();
    let mut v: Vec<char> = Vec::new();
    let mut i: usize = 0;
    while i < n
        invariant
            i <= n,
            n == s@.len(),
            v@ == s@.take(i as int),
        decreases n - i,
    {
        v.push(s.get_char(i));
        assert(v@ =~= s@.take(i + 1));
        i = i + 1;
    }
    assert(v@ =~= s@);
    v
}

/// A string holding the given characters.
pub fn string_from_chars(v: &[char]) -> (s: String)
    ensures
        s@ == v@,
{
    let mut s = String::new();
    let mut i: usize = 0;
    while i < v.len()
        invariant
            i <= v@.len(),
            s@ == v@.take(i as int),
        decreases v@.len() - i,
    {
        push_char(&mut s, v[i]);
        assert(s@ =~= v@.take(i + 1));
        i = i + 1;
    }
    assert(s@ =~= v@);
    s
}

} // verus!
