//! Small verified helpers on characters, strings and decimal numbers that the
//! protocol modules share: digit parsing and formatting, string equality and
//! prefix tests, and whitespace trimming.

use vstd::prelude::*;
use vstd::string::*;

verus! {

/// The whitespace characters this crate trims: the ones the backend can put
/// around a protocol value (space, tab, carriage return, line feed).
pub open spec fn is_space(c: char) -> bool {
    c == ' ' || c == '\t' || c == '\n' || c == '\r'
}

pub open spec fn is_digit(c: char) -> bool {
    '0' <= c && c <= '9'
}

pub open spec fn digit_val(c: char) -> int {
    c as int - '0' as int
}

pub open spec fn all_digits(s: Seq<char>) -> bool {
    forall|i: int| 0 <= i < s.len() ==> is_digit(#[trigger] s[i])
}

/// The number that a sequence of decimal digits denotes (most significant
/// digit first); 0 for the empty sequence.
pub open spec fn dec_value(s: Seq<char>) -> int
    decreases s.len(),
{
    if s.len() == 0 {
        0
    } else {
        dec_value(s.drop_last()) * 10 + digit_val(s.last())
    }
}

/// The decimal representation of a non-negative number, without leading
/// zeros (except for 0 itself).
pub open spec fn dec_rep(n: int) -> Seq<char>
    recommends
        n >= 0,
    decreases n,
{
    if n < 10 {
        seq![digit_char(n)]
    } else {
        dec_rep(n / 10).push(digit_char(n % 10))
    }
}

pub open spec fn digit_char(d: int) -> char {
    if d == 0 {
        '0'
    } else if d == 1 {
        '1'
    } else if d == 2 {
        '2'
    } else if d == 3 {
        '3'
    } else if d == 4 {
        '4'
    } else if d == 5 {
        '5'
    } else if d == 6 {
        '6'
    } else if d == 7 {
        '7'
    } else if d == 8 {
        '8'
    } else {
        '9'
    }
}

pub proof fn lemma_dec_value_nonneg(s: Seq<char>)
    requires
        all_digits(s),
    ensures
        dec_value(s) >= 0,
    decreases s.len(),
{
    if s.len() > 0 {
        assert(all_digits(s.drop_last()));
        lemma_dec_value_nonneg(s.drop_last());
    }
}

/// Appending digits never shrinks the denoted value.
proof fn lemma_dec_value_prefix_le(s: Seq<char>, j: int, k: int)
    requires
        all_digits(s),
        0 <= j <= k <= s.len(),
    ensures
        dec_value(s.subrange(0, j)) <= dec_value(s.subrange(0, k)),
    decreases k - j,
{
    if j < k {
        lemma_dec_value_prefix_le(s, j, k - 1);
        let p = s.subrange(0, k);
        assert(p.drop_last() =~= s.subrange(0, k - 1));
        assert(all_digits(s.subrange(0, k - 1)));
        lemma_dec_value_nonneg(s.subrange(0, k - 1));
    }
}

/// Relies on String::push: appends one character to the string.
#[verifier::external_body]
pub fn push_char(s: &mut String, c: char)
    ensures
        final(s)@ == old(s)@.push(c),
{
    s.push(c)
}

/// Parses a run of decimal digits into a number; `None` when the string is
/// empty, holds a non-digit, or denotes a value above `u64::MAX`.
pub open spec fn spec_parse_u64(s: Seq<char>) -> Option<u64> {
    if s.len() > 0 && all_digits(s) && dec_value(s) <= u64::MAX {
        Some(dec_value(s) as u64)
    } else {
        None
    }
}

pub fn parse_u64(s: &str) -> (r: Option<u64>)
    ensures
        r == spec_parse_u64(s@),
{
    let n = s.unicode_len();
    if n == 0 {
        return None;
    }
    let mut i: usize = 0;
    let mut acc: u64 = 0;
    while i < n
        invariant
            0 <= i <= n,
            n == s@.len(),
            all_digits(s@.subrange(0, i as int)),
            acc == dec_value(s@.subrange(0, i as int)),
        decreases n - i,
    {
        let c = s.get_char(i);
        if c < '0' || c > '9' {
            assert(!all_digits(s@));
            return None;
        }
        let d: u64 = (c as u32 - '0' as u32) as u64;
        let step = match acc.checked_mul(10) {
            Some(m) => m.checked_add(d),
            None => None,
        };
        proof {
            assert(s@.subrange(0, i + 1).drop_last() =~= s@.subrange(0, i as int));
            assert(dec_value(s@.subrange(0, i + 1)) == acc * 10 + d);
        }
        match step {
            Some(v) => {
                acc = v;
            },
            None => {
                proof {
                    if all_digits(s@) && dec_value(s@) <= u64::MAX {
                        lemma_dec_value_prefix_le(s@, i + 1, n as int);
                        assert(s@.subrange(0, n as int) =~= s@);
                        assert(false);
                    }
                }
                return None;
            },
        }
        i = i + 1;
    }
    proof {
        assert(s@.subrange(0, n as int) =~= s@);
    }
    Some(acc)
}

pub open spec fn spec_parse_u32(s: Seq<char>) -> Option<u32> {
    if s.len() > 0 && all_digits(s) && dec_value(s) <= u32::MAX {
        Some(dec_value(s) as u32)
    } else {
        None
    }
}

pub fn parse_u32(s: &str) -> (r: Option<u32>)
    ensures
        r == spec_parse_u32(s@),
{
    proof {
        if s@.len() > 0 && all_digits(s@) {
            lemma_dec_value_nonneg(s@);
        }
    }
    match parse_u64(s) {
        Some(v) => {
            if v <= u32::MAX as u64 {
                Some(v as u32)
            } else {
                None
            }
        },
        None => None,
    }
}

pub open spec fn spec_parse_u8(s: Seq<char>) -> Option<u8> {
    if s.len() > 0 && all_digits(s) && dec_value(s) <= u8::MAX {
        Some(dec_value(s) as u8)
    } else {
        None
    }
}

pub fn parse_u8(s: &str) -> (r: Option<u8>)
    ensures
        r == spec_parse_u8(s@),
{
    proof {
        if s@.len() > 0 && all_digits(s@) {
            lemma_dec_value_nonneg(s@);
        }
    }
    match parse_u64(s) {
        Some(v) => {
            if v <= u8::MAX as u64 {
                Some(v as u8)
            } else {
                None
            }
        },
        None => None,
    }
}

fn digit_to_char(d: u64) -> (c: char)
    requires
        d < 10,
    ensures
        c == digit_char(d as int),
{
    if d == 0 {
        '0'
    } else if d == 1 {
        '1'
    } else if d == 2 {
        '2'
    } else if d == 3 {
        '3'
    } else if d == 4 {
        '4'
    } else if d == 5 {
        '5'
    } else if d == 6 {
        '6'
    } else if d == 7 {
        '7'
    } else if d == 8 {
        '8'
    } else {
        '9'
    }
}

/// Formats a number in decimal, the inverse of [`parse_u64`] on canonical
/// (leading-zero-free) digit strings.
pub fn fmt_u64(n: u64) -> (r: String)
    ensures
        r@ == dec_rep(n as int),
    decreases n,
{
    if n < 10 {
        let mut s = String::new();
        push_char(&mut s, digit_to_char(n));
        proof {
            assert(s@ =~= dec_rep(n as int));
        }
        s
    } else {
        let mut s = fmt_u64(n / 10);
        push_char(&mut s, digit_to_char(n % 10));
        s
    }
}

/// A number under 1000 written with exactly three digits.
pub open spec fn dec3(n: int) -> Seq<char> {
    seq![digit_char(n / 100), digit_char((n / 10) % 10), digit_char(n % 10)]
}

/// Formats a number below 1000 zero-padded to three digits.
pub fn fmt_u64_pad3(n: u64) -> (r: String)
    requires
        n < 1000,
    ensures
        r@ == dec3(n as int),
{
    let mut s = String::new();
    push_char(&mut s, digit_to_char(n / 100));
    push_char(&mut s, digit_to_char((n / 10) % 10));
    push_char(&mut s, digit_to_char(n % 10));
    proof {
        assert(s@ =~= dec3(n as int));
    }
    s
}

/// Character-for-character string equality, stated over the views.
pub fn eq_str(a: &str, b: &str) -> (r: bool)
    ensures
        r == (a@ == b@),
{
    let na = a.unicode_len();
    let nb = b.unicode_len();
    if na != nb {
        proof {
            assert(a@ != b@);
        }
        return false;
    }
    let mut i: usize = 0;
    while i < na
        invariant
            0 <= i <= na,
            na == a@.len(),
            na == b@.len(),
            forall|j: int| 0 <= j < i ==> a@[j] == b@[j],
        decreases na - i,
    {
        if a.get_char(i) != b.get_char(i) {
            return false;
        }
        i = i + 1;
    }
    proof {
        assert(a@ =~= b@);
    }
    true
}

pub open spec fn seq_starts_with(s: Seq<char>, p: Seq<char>) -> bool {
    p.len() <= s.len() && forall|i: int| 0 <= i < p.len() ==> s[i] == #[trigger] p[i]
}

pub fn starts_with_str(s: &str, p: &str) -> (r: bool)
    ensures
        r == seq_starts_with(s@, p@),
{
    let ns = s.unicode_len();
    let np = p.unicode_len();
    if np > ns {
        return false;
    }
    let mut i: usize = 0;
    while i < np
        invariant
            0 <= i <= np,
            np <= ns,
            ns == s@.len(),
            np == p@.len(),
            forall|j: int| 0 <= j < i ==> s@[j] == #[trigger] p@[j],
        decreases np - i,
    {
        if s.get_char(i) != p.get_char(i) {
            return false;
        }
        i = i + 1;
    }
    true
}

/// A sequence with the leading whitespace removed.
pub open spec fn trim_front(s: Seq<char>) -> Seq<char>
    decreases s.len(),
{
    if s.len() > 0 && is_space(s[0]) {
        trim_front(s.drop_first())
    } else {
        s
    }
}

/// A sequence with the trailing whitespace removed.
pub open spec fn trim_back(s: Seq<char>) -> Seq<char>
    decreases s.len(),
{
    if s.len() > 0 && is_space(s.last()) {
        trim_back(s.drop_last())
    } else {
        s
    }
}

/// A sequence with surrounding whitespace removed.
pub open spec fn trim_seq(s: Seq<char>) -> Seq<char> {
    trim_back(trim_front(s))
}

proof fn lemma_trim_front_skip(s: Seq<char>, a: int)
    requires
        0 <= a < s.len(),
        is_space(s[a]),
    ensures
        trim_front(s.skip(a)) == trim_front(s.skip(a + 1)),
{
    assert(s.skip(a).len() > 0);
    assert(s.skip(a)[0] == s[a]);
    assert(s.skip(a).drop_first() =~= s.skip(a + 1));
}

proof fn lemma_trim_back_take(s: Seq<char>, b: int)
    requires
        0 < b <= s.len(),
        is_space(s[b - 1]),
    ensures
        trim_back(s.take(b)) == trim_back(s.take(b - 1)),
{
    assert(s.take(b).len() > 0);
    assert(s.take(b).last() == s[b - 1]);
    assert(s.take(b).drop_last() =~= s.take(b - 1));
}

/// Copies `s` with surrounding whitespace removed.
pub fn trimmed(s: &str) -> (r: String)
    ensures
        r@ == trim_seq(s@),
{
    let n = s.unicode_len();
    proof {
        assert(s@.skip(0) =~= s@);
    }
    let mut a: usize = 0;
    while a < n && is_space_char(s.get_char(a))
        invariant
            0 <= a <= n,
            n == s@.len(),
            trim_front(s@) == trim_front(s@.skip(a as int)),
        decreases n - a,
    {
        proof {
            lemma_trim_front_skip(s@, a as int);
        }
        a = a + 1;
    }
    proof {
        if a < n {
            assert(s@.skip(a as int)[0] == s@[a as int]);
        }
        assert(trim_front(s@) == s@.skip(a as int));
    }
    let mut b: usize = n;
    proof {
        let t = s@.skip(a as int);
        assert(t.take(n - a) =~= t);
    }
    while b > a && is_space_char(s.get_char(b - 1))
        invariant
            a <= b <= n,
            n == s@.len(),
            trim_front(s@) == s@.skip(a as int),
            trim_back(s@.skip(a as int)) == trim_back(s@.skip(a as int).take(b - a)),
        decreases b,
    {
        proof {
            assert(s@.skip(a as int)[b - a - 1] == s@[b - 1]);
            lemma_trim_back_take(s@.skip(a as int), b - a);
        }
        b = b - 1;
    }
    proof {
        let t = s@.skip(a as int);
        if b > a {
            assert(t.take(b - a).last() == s@[b - 1]);
        }
        assert(trim_back(t.take(b - a)) == t.take(b - a));
        assert(trim_seq(s@) == t.take(b - a));
        assert(t.take(b - a) =~= s@.subrange(a as int, b as int));
    }
    let piece = s.substring_char(a, b);
    piece.to_owned()
}

pub fn is_space_char(c: char) -> (r: bool)
    ensures
        r == is_space(c),
{
    c == ' ' || c == '\t' || c == '\n' || c == '\r'
}

/// The position of the first `c` at or after `i`, if any.
pub open spec fn find_char_from(s: Seq<char>, c: char, i: int) -> Option<int>
    decreases s.len() - i,
{
    if i < 0 || i >= s.len() {
        None
    } else if s[i] == c {
        Some(i)
    } else {
        find_char_from(s, c, i + 1)
    }
}

/// Finds the first occurrence of a character.
pub fn find_char(s: &str, c: char) -> (r: Option<usize>)
    ensures
        match r {
            Some(p) => find_char_from(s@, c, 0) == Some(p as int) && p < s@.len(),
            None => find_char_from(s@, c, 0) is None,
        },
{
    let n = s.unicode_len();
    let mut i: usize = 0;
    while i < n
        invariant
            0 <= i <= n,
            n == s@.len(),
            find_char_from(s@, c, 0) == find_char_from(s@, c, i as int),
        decreases n - i,
    {
        if s.get_char(i) == c {
            return Some(i);
        }
        i = i + 1;
    }
    None
}

pub open spec fn ten_pow(k: int) -> int
    decreases k,
{
    if k <= 0 {
        1
    } else {
        10 * ten_pow(k - 1)
    }
}

/// A run of digits denotes less than ten to the power of its length.
pub proof fn lemma_dec_value_bound(s: Seq<char>)
    requires
        all_digits(s),
    ensures
        0 <= dec_value(s) < ten_pow(s.len() as int),
    decreases s.len(),
{
    if s.len() > 0 {
        assert(all_digits(s.drop_last()));
        lemma_dec_value_bound(s.drop_last());
    }
}

/// The number of microseconds that a decimal seconds value denotes.  The
/// accepted shape is a non-empty run of digits, optionally followed by a
/// dot and any run of digits; fractional digits past the microsecond are
/// dropped.  Anything else, or a value above `u64::MAX` microseconds, is
/// `None`.
pub open spec fn spec_parse_seconds_micros(s: Seq<char>) -> Option<u64> {
    match find_char_from(s, '.', 0) {
        None => {
            if s.len() > 0 && all_digits(s) && dec_value(s) * 1000000 <= u64::MAX {
                Some((dec_value(s) * 1000000) as u64)
            } else {
                None
            }
        },
        Some(d) => {
            let ip = s.subrange(0, d);
            let fp = s.subrange(d + 1, s.len() as int);
            let total = dec_value(ip) * 1000000 + frac_micros(fp);
            if ip.len() > 0 && all_digits(ip) && all_digits(fp) && total <= u64::MAX {
                Some(total as u64)
            } else {
                None
            }
        },
    }
}

/// The microseconds denoted by the fractional digits: the first six,
/// scaled up when fewer are given.
pub open spec fn frac_micros(fp: Seq<char>) -> int {
    if fp.len() >= 6 {
        dec_value(fp.subrange(0, 6))
    } else {
        dec_value(fp) * ten_pow(6 - fp.len())
    }
}

proof fn lemma_ten_pow_values()
    ensures
        ten_pow(0) == 1,
        ten_pow(1) == 10,
        ten_pow(2) == 100,
        ten_pow(3) == 1000,
        ten_pow(4) == 10000,
        ten_pow(5) == 100000,
        ten_pow(6) == 1000000,
{
    assert(ten_pow(0) == 1);
    assert(ten_pow(1) == 10);
    assert(ten_pow(2) == 100);
    assert(ten_pow(3) == 1000);
    assert(ten_pow(4) == 10000);
    assert(ten_pow(5) == 100000);
    assert(ten_pow(6) == 1000000);
}

/// Parses a decimal seconds value into microseconds, as
/// [`spec_parse_seconds_micros`] reads it.
pub fn parse_seconds_micros(s: &str) -> (r: Option<u64>)
    ensures
        r == spec_parse_seconds_micros(s@),
{
    let n = s.unicode_len();
    let dot = find_char(s, '.');
    match dot {
        None => {
            proof {
                if s@.len() > 0 && all_digits(s@) {
                    lemma_dec_value_nonneg(s@);
                }
            }
            match parse_u64(s) {
                None => None,
                Some(secs) => {
                    match secs.checked_mul(1000000) {
                        Some(us) => Some(us),
                        None => None,
                    }
                },
            }
        },
        Some(d) => {
            let ip = s.substring_char(0, d);
            let fp = s.substring_char(d + 1, n);
            proof {
                lemma_ten_pow_values();
                if all_digits(fp@) {
                    lemma_dec_value_bound(fp@);
                    if fp@.len() >= 6 {
                        assert(all_digits(fp@.subrange(0, 6)));
                        lemma_dec_value_bound(fp@.subrange(0, 6));
                    }
                    assert(0 <= frac_micros(fp@) < 1000000) by {
                        if fp@.len() < 6 {
                            lemma_frac_scale_bound(fp@);
                        }
                    }
                }
                if ip@.len() > 0 && all_digits(ip@) {
                    lemma_dec_value_nonneg(ip@);
                }
            }
            let secs = match parse_u64(ip) {
                Some(v) => v,
                None => {
                    return None;
                },
            };
            let frac = match parse_frac_micros(fp) {
                Some(v) => v,
                None => {
                    return None;
                },
            };
            let base = match secs.checked_mul(1000000) {
                Some(v) => v,
                None => {
                    return None;
                },
            };
            match base.checked_add(frac) {
                Some(total) => Some(total),
                None => None,
            }
        },
    }
}

/// Scaling up by the missing digits keeps the fraction under one second.
proof fn lemma_frac_scale_bound(fp: Seq<char>)
    requires
        all_digits(fp),
        fp.len() < 6,
    ensures
        0 <= dec_value(fp) * ten_pow(6 - fp.len()) < 1000000,
{
    lemma_ten_pow_values();
    lemma_dec_value_bound(fp);
    let v = dec_value(fp);
    let k = 6 - fp.len();
    let p = ten_pow(fp.len() as int);
    let q = ten_pow(k);
    assert(ten_pow(6) == p * q) by {
        lemma_ten_pow_split(fp.len() as int, k);
    }
    assert(v * q <= (p - 1) * q) by (nonlinear_arith)
        requires
            v <= p - 1,
            q >= 0,
    ;
    assert((p - 1) * q == p * q - q) by (nonlinear_arith);
    assert(v * q >= 0) by (nonlinear_arith)
        requires
            v >= 0,
            q >= 0,
    ;
}

proof fn lemma_ten_pow_mono(a: int, b: int)
    requires
        0 <= a <= b,
    ensures
        ten_pow(a) <= ten_pow(b),
    decreases b,
{
    if a < b {
        lemma_ten_pow_mono(a, b - 1);
        assert(ten_pow(b) == 10 * ten_pow(b - 1));
        assert(ten_pow(b - 1) >= 1) by {
            lemma_ten_pow_pos(b - 1);
        }
    }
}

proof fn lemma_ten_pow_pos(a: int)
    ensures
        ten_pow(a) >= 1,
    decreases a,
{
    if a > 0 {
        lemma_ten_pow_pos(a - 1);
    }
}

proof fn lemma_ten_pow_split(a: int, b: int)
    requires
        a >= 0,
        b >= 0,
    ensures
        ten_pow(a + b) == ten_pow(a) * ten_pow(b),
    decreases a,
{
    if a == 0 {
    } else {
        lemma_ten_pow_split(a - 1, b);
        assert(ten_pow(a + b) == 10 * ten_pow(a - 1 + b));
        assert(10 * (ten_pow(a - 1) * ten_pow(b)) == (10 * ten_pow(a - 1)) * ten_pow(b))
            by (nonlinear_arith);
    }
}

/// Parses the fractional digits of a seconds value into microseconds:
/// `None` when any character is not a digit, otherwise [`frac_micros`].
/// An empty fraction is zero.
fn parse_frac_micros(fp: &str) -> (r: Option<u64>)
    ensures
        match r {
            Some(v) => all_digits(fp@) && v == frac_micros(fp@),
            None => !all_digits(fp@),
        },
{
    let n = fp.unicode_len();
    let mut i: usize = 0;
    let mut acc: u64 = 0;
    while i < n
        invariant
            0 <= i <= n,
            n == fp@.len(),
            all_digits(fp@.subrange(0, i as int)),
            acc == dec_value(fp@.subrange(0, if i <= 6 { i as int } else { 6 })),
            acc < 1000000,
        decreases n - i,
    {
        let c = fp.get_char(i);
        if c < '0' || c > '9' {
            assert(!all_digits(fp@));
            return None;
        }
        proof {
            lemma_ten_pow_values();
            assert(fp@.subrange(0, i + 1).drop_last() =~= fp@.subrange(0, i as int));
            assert(all_digits(fp@.subrange(0, i + 1)));
        }
        if i < 6 {
            let d: u64 = (c as u32 - '0' as u32) as u64;
            proof {
                lemma_dec_value_bound(fp@.subrange(0, i as int));
                lemma_ten_pow_mono(i as int, 5);
                lemma_ten_pow_values();
                lemma_dec_value_bound(fp@.subrange(0, i + 1));
                lemma_ten_pow_mono(i + 1, 6);
            }
            acc = acc * 10 + d;
        } else {
            proof {
                assert(fp@.subrange(0, 6) =~= fp@.subrange(0, i + 1).subrange(0, 6));
            }
        }
        i = i + 1;
    }
    proof {
        lemma_ten_pow_values();
        assert(fp@.subrange(0, n as int) =~= fp@);
    }
    if n >= 6 {
        Some(acc)
    } else {
        let scale: u64 = match n {
            0 => 1000000,
            1 => 100000,
            2 => 10000,
            3 => 1000,
            4 => 100,
            5 => 10,
            _ => 1,
        };
        proof {
            assert(scale == ten_pow(6 - n));
            lemma_dec_value_bound(fp@);
            lemma_frac_scale_bound(fp@);
        }
        Some(acc * scale)
    }
}

} // verus!
