use vstd::prelude::*;
use vstd::string::StrSliceExecFns;
use vstd::string::StringExecFns;

verus! {

/// The character for one decimal digit.
pub open spec fn spec_digit(d: nat) -> char
    recommends
        d < 10,
{
    if d == 0 {
        '0'
    } else if d == 1 {
        '1'
    } else if d == 2 {
        '2'
    } else if d == 3 {
        '3'
    } else if d == 4 {
        '4'
    } else if d == 5 {
        '5'
    } else if d == 6 {
        '6'
    } else if d == 7 {
        '7'
    } else if d == 8 {
        '8'
    } else {
        '9'
    }
}

/// The decimal rendering of a number, most significant digit first, with no
/// sign and no leading zero except for the number zero itself.
pub open spec fn spec_u64_text(n: nat) -> Seq<char>
    decreases n,
{
    if n < 10 {
        seq![spec_digit(n)]
    } else {
        spec_u64_text(n / 10) + seq![spec_digit(n % 10)]
    }
}

fn digit_str(d: u64) -> (r: &'static str)
    requires
        d < 10,
    ensures
        r@ == seq![spec_digit(d as nat)],
{
    proof {
        reveal_strlit("0");
        reveal_strlit("1");
        reveal_strlit("2");
        reveal_strlit("3");
        reveal_strlit("4");
        reveal_strlit("5");
        reveal_strlit("6");
        reveal_strlit("7");
        reveal_strlit("8");
        reveal_strlit("9");
    }
    let r: &'static str = match d {
        0 => "0",
        1 => "1",
        2 => "2",
        3 => "3",
        4 => "4",
        5 => "5",
        6 => "6",
        7 => "7",
        8 => "8",
        _ => "9",
    };
    proof {
        assert(r@ =~= seq![spec_digit(d as nat)]);
    }
    r
}

/// Renders a number in decimal, for interpolation into statement text.
pub fn u64_text(n: u64) -> (r: String)
    ensures
        r@ == spec_u64_text(n as nat),
    decreases n,
{
    if n < 10 {
        digit_str(n).to_owned()
    } else {
        let prefix = u64_text(n / 10);
        let last = digit_str(n % 10);
        prefix.concat(last)
    }
}

/// The decimal rendering of a signed number: a leading minus sign for
/// negatives, then the magnitude's digits.
pub open spec fn spec_i64_text(v: i64) -> Seq<char> {
    if v >= 0 {
        spec_u64_text(v as nat)
    } else {
        seq!['-'] + spec_u64_text((-(v as int)) as nat)
    }
}

/// Renders a signed number in decimal.
pub fn i64_text(v: i64) -> (r: String)
    ensures
        r@ == spec_i64_text(v),
{
    if v >= 0 {
        u64_text(v as u64)
    } else {
        let magnitude = (-(v as i128)) as u64;
        let digits = u64_text(magnitude);
        let r = "-".to_owned().concat(digits.as_str());
        proof {
            reveal_strlit("-");
            assert("-"@ =~= seq!['-']);
        }
        r
    }
}

/// Whether a character is a decimal digit.
pub open spec fn is_digit_char(c: char) -> bool {
    48 <= c as u32 && c as u32 <= 57
}

/// The numeric value of one digit character.
pub open spec fn digit_val(c: char) -> nat
    recommends
        is_digit_char(c),
{
    (c as u32 - '0' as u32) as nat
}

/// The value of a digit string, most significant digit first.
pub open spec fn spec_digits_val(s: Seq<char>) -> nat
    decreases s.len(),
{
    if s.len() == 0 {
        0
    } else {
        spec_digits_val(s.drop_last()) * 10 + digit_val(s.last())
    }
}

/// Whether every character is a decimal digit.
pub open spec fn spec_all_digits(s: Seq<char>) -> bool {
    forall|i: int| 0 <= i < s.len() ==> is_digit_char(#[trigger] s[i])
}

/// A longer digit string never has a smaller value.
proof fn lemma_digits_val_prefix_le(s: Seq<char>, i: int)
    requires
        0 <= i <= s.len(),
    ensures
        spec_digits_val(s.subrange(0, i)) <= spec_digits_val(s),
    decreases s.len() - i,
{
    if i == s.len() {
        assert(s.subrange(0, i) =~= s);
    } else {
        let p = s.subrange(0, i);
        let q = s.subrange(0, i + 1);
        assert(q.drop_last() =~= p);
        assert(spec_digits_val(q) == spec_digits_val(p) * 10 + digit_val(q.last()));
        assert(spec_digits_val(p) * 10 >= spec_digits_val(p)) by (nonlinear_arith);
        lemma_digits_val_prefix_le(s, i + 1);
    }
}

/// Number text with one optional leading plus sign stripped.
pub open spec fn spec_sign_stripped(s: Seq<char>) -> Seq<char> {
    if s.len() > 0 && s[0] == '+' {
        s.subrange(1, s.len() as int)
    } else {
        s
    }
}

/// The unsigned reading of decimal text, as std's number parsing accepts it:
/// an optional leading plus sign, then at least one digit, rejected when the
/// value exceeds the type's range.
pub open spec fn spec_parse_u64(s: Seq<char>) -> Option<u64> {
    let body = spec_sign_stripped(s);
    if body.len() == 0 || !spec_all_digits(body) || spec_digits_val(body) > u64::MAX {
        None
    } else {
        Some(spec_digits_val(body) as u64)
    }
}

/// Parses decimal text as an unsigned 64-bit number.
pub fn parse_u64(s: &str) -> (r: Option<u64>)
    ensures
        r == spec_parse_u64(s@),
{
    let n = s.unicode_len();
    let start: usize = if n > 0 && s.get_char(0) == '+' {
        1
    } else {
        0
    };
    let ghost body = spec_sign_stripped(s@);
    proof {
        assert(body =~= s@.subrange(start as int, n as int));
    }
    if start >= n {
        return None;
    }
    let mut val: u64 = 0;
    let mut i: usize = start;
    while i < n
        invariant
            n == s@.len(),
            start <= i <= n,
            start < n,
            body == spec_sign_stripped(s@),
            body == s@.subrange(start as int, n as int),
            spec_all_digits(body.subrange(0, i - start)),
            val == spec_digits_val(body.subrange(0, i - start)),
        decreases n - i,
    {
        let c = s.get_char(i);
        let cu = c as u32;
        if !(48 <= cu && cu <= 57) {
            proof {
                assert(body[i - start] == s@[i as int]);
                assert(!is_digit_char(body[i - start]));
                assert(!spec_all_digits(body));
            }
            return None;
        }
        let d = (cu - 48) as u64;
        let ghost prefix = body.subrange(0, i - start);
        let ghost next = body.subrange(0, i + 1 - start);
        proof {
            assert(next.drop_last() =~= prefix);
            assert(next.last() == s@[i as int]);
            assert(spec_digits_val(next) == spec_digits_val(prefix) * 10 + digit_val(next.last()));
        }
        if val > (u64::MAX - d) / 10 {
            proof {
                assert(spec_digits_val(next) > u64::MAX) by (nonlinear_arith)
                    requires
                        spec_digits_val(next) == val * 10 + d,
                        val > (u64::MAX - d) / 10,
                        d <= 9,
                {
                }
                lemma_digits_val_prefix_le(body, i + 1 - start);
            }
            return None;
        }
        proof {
            assert(val * 10 + d <= u64::MAX) by (nonlinear_arith)
                requires
                    val <= (u64::MAX - d) / 10,
                    d <= 9,
            {
            }
        }
        val = val * 10 + d;
        i += 1;
    }
    proof {
        assert(body.subrange(0, n - start) =~= body);
    }
    Some(val)
}

/// The unsigned reading of decimal text, within 16-bit range.
pub open spec fn spec_parse_u16(s: Seq<char>) -> Option<u16> {
    let body = spec_sign_stripped(s);
    if body.len() == 0 || !spec_all_digits(body) || spec_digits_val(body) > u16::MAX {
        None
    } else {
        Some(spec_digits_val(body) as u16)
    }
}

/// Parses decimal text as an unsigned 16-bit number, as a port field needs.
pub fn parse_u16(s: &str) -> (r: Option<u16>)
    ensures
        r == spec_parse_u16(s@),
{
    match parse_u64(s) {
        Some(v) => if v <= 65535 {
            Some(v as u16)
        } else {
            None
        },
        None => None,
    }
}

/// Whether `sub` occurs contiguously anywhere in `s`.
pub open spec fn contains_seq(s: Seq<char>, sub: Seq<char>) -> bool {
    exists|i: int| 0 <= i && i + sub.len() <= s.len() && #[trigger] s.subrange(i, i + sub.len()) == sub
}

/// Substring search by character positions.
pub fn str_contains(s: &str, sub: &str) -> (r: bool)
    ensures
        r == contains_seq(s@, sub@),
{
    let n = s.unicode_len();
    let m = sub.unicode_len();
    if m > n {
        return false;
    }
    if m == 0 {
        proof {
            assert(s@.subrange(0, 0 + sub@.len() as int) =~= sub@);
        }
        return true;
    }
    let mut i: usize = 0;
    while i <= n - m
        invariant
            n == s@.len(),
            m == sub@.len(),
            1 <= m <= n,
            i <= n - m + 1,
            forall|j: int| 0 <= j < i ==> #[trigger] s@.subrange(j, j + m as int) != sub@,
        decreases n - m + 1 - i,
    {
        let piece = s.substring_char(i, i + m);
        if str_eq(piece, sub) {
            proof {
                assert(s@.subrange(i as int, i as int + m as int) == sub@);
            }
            return true;
        }
        i += 1;
    }
    false
}

/// Character-level equality of two text slices.
pub fn str_eq(a: &str, b: &str) -> (r: bool)
    ensures
        r == (a@ == b@),
{
    a.to_owned() == b.to_owned()
}

/// The whitespace characters the statement classifier skips over.
pub open spec fn is_space_char(c: char) -> bool {
    c == ' ' || c == '\t' || c == '\n' || c == '\r'
}

/// The position of the first non-whitespace character at or after `i`
/// (or the text's length, when only whitespace remains).
pub open spec fn spec_skip_spaces(s: Seq<char>, i: int) -> int
    recommends
        0 <= i <= s.len(),
    decreases s.len() - i,
{
    if i < 0 || i >= s.len() {
        i
    } else if is_space_char(s[i]) {
        spec_skip_spaces(s, i + 1)
    } else {
        i
    }
}

/// Whether uppercase keyword `k` matches `s` at offset `off`, ignoring the
/// case of ASCII letters in `s`.
pub open spec fn matches_keyword_at(s: Seq<char>, k: Seq<char>, off: int) -> bool {
    &&& 0 <= off
    &&& off + k.len() <= s.len()
    &&& forall|j: int|
        0 <= j < k.len() ==> #[trigger] char_eq_upper(s[off + j], k[j])
}

/// Whether `a` is `b` itself or its ASCII-lowercase counterpart; `b` is
/// expected to be an ASCII uppercase letter.
pub open spec fn char_eq_upper(a: char, b: char) -> bool {
    a == b || a as u32 == b as u32 + 32
}

/// Case-insensitive match of an ASCII uppercase keyword at a character
/// offset.
pub fn keyword_at(s: &str, i: usize, k: &str) -> (r: bool)
    requires
        i <= s@.len(),
    ensures
        r == matches_keyword_at(s@, k@, i as int),
{
    let n = s.unicode_len();
    let m = k.unicode_len();
    if m > n - i {
        return false;
    }
    let mut j: usize = 0;
    while j < m
        invariant
            n == s@.len(),
            m == k@.len(),
            i + m <= n,
            j <= m,
            forall|t: int| 0 <= t < j ==> #[trigger] char_eq_upper(s@[i + t], k@[t]),
        decreases m - j,
    {
        let sc = s.get_char(i + j);
        let kc = k.get_char(j);
        let su = sc as u32;
        let ku = kc as u32;
        if !(sc == kc || (su >= 32 && su - 32 == ku)) {
            proof {
                assert(!char_eq_upper(s@[i as int + j as int], k@[j as int]));
            }
            return false;
        }
        j += 1;
    }
    true
}

} // verus!
