//! Small verified operations on text that the rest of the crate shares.

use vstd::prelude::*;
use vstd::string::{is_ascii, StrSliceExecFns, StringSliceAdditionalSpecFns};
use vstd::utf8::{decode_utf8, encode_utf8_decode_utf8, is_ascii_chars};

verus! {

/// Whether two string slices hold the same characters.
pub fn str_eq(a: &str, b: &str) -> (r: bool)
    ensures
        r == (a@ == b@),
{
    let x = a.as_bytes();
    let y = b.as_bytes();
    proof {
        encode_utf8_decode_utf8(a@);
        encode_utf8_decode_utf8(b@);
    }
    if x.len() != y.len() {
        return false;
    }
    let n = x.len();
    let mut i: usize = 0;
    while i < n
        invariant
            i <= n,
            n == x@.len(),
            n == y@.len(),
            x@ == a.spec_bytes(),
            y@ == b.spec_bytes(),
            decode_utf8(a.spec_bytes()) == a@,
            decode_utf8(b.spec_bytes()) == b@,
            forall|k: int| 0 <= k < i ==> x@[k] == y@[k],
        decreases n - i,
    {
        if x[i] != y[i] {
            return false;
        }
        i += 1;
    }
    assert(x@ =~= y@);
    true
}

/// The place of the first occurrence of `key` in `keys`.
pub open spec fn first_index(keys: Seq<Seq<char>>, key: Seq<char>) -> Option<int>
    decreases keys.len(),
{
    if keys.len() == 0 {
        None
    } else if keys[0] == key {
        Some(0)
    } else {
        match first_index(keys.drop_first(), key) {
            Some(i) => Some(i + 1),
            None => None,
        }
    }
}

/// [`first_index`] finds the first occurrence, and finds one wherever there
/// is one.
pub proof fn lemma_first_index(keys: Seq<Seq<char>>, key: Seq<char>)
    ensures
        match first_index(keys, key) {
            Some(i) => 0 <= i < keys.len() && keys[i] == key && forall|k: int|
                0 <= k < i ==> keys[k] != key,
            None => forall|k: int| 0 <= k < keys.len() ==> keys[k] != key,
        },
    decreases keys.len(),
{
    if keys.len() > 0 && keys[0] != key {
        let rest = keys.drop_first();
        lemma_first_index(rest, key);
        match first_index(rest, key) {
            Some(i) => {
                assert(keys[i + 1] == rest[i]);
                assert forall|k: int| 0 <= k < i + 1 implies keys[k] != key by {
                    if k > 0 {
                        assert(keys[k] == rest[k - 1]);
                    }
                }
            },
            None => {
                assert forall|k: int| 0 <= k < keys.len() implies keys[k] != key by {
                    if k > 0 {
                        assert(keys[k] == rest[k - 1]);
                    }
                }
            },
        }
    }
}

/// The keys of a list of pairs, in order.
pub open spec fn keys_of<V>(pairs: Seq<(String, V)>) -> Seq<Seq<char>> {
    pairs.map_values(|p: (String, V)| p.0@)
}

/// The place of the first pair with the given key.
pub fn find_key<V>(pairs: &Vec<(String, V)>, key: &str) -> (r: Option<usize>)
    ensures
        match r {
            Some(i) => first_index(keys_of(pairs@), key@) == Some(i as int) && i < pairs.len(),
            None => first_index(keys_of(pairs@), key@) is None,
        },
{
    let ghost keys = keys_of(pairs@);
    let mut i: usize = 0;
    while i < pairs.len()
        invariant
            i <= pairs.len(),
            keys == keys_of(pairs@),
            forall|k: int| 0 <= k < i ==> keys[k] != key@,
        decreases pairs.len() - i,
    {
        if str_eq(pairs[i].0.as_str(), key) {
            proof {
                assert(keys[i as int] == key@);
                lemma_first_index(keys, key@);
            }
            return Some(i);
        }
        i += 1;
    }
    proof {
        lemma_first_index(keys, key@);
    }
    None
}

/// Whether `c` is one of the ten decimal digits.
pub open spec fn is_digit(c: char) -> bool {
    '0' <= c <= '9'
}

/// Whether every character of `s` is a decimal digit.
pub open spec fn all_digits(s: Seq<char>) -> bool {
    forall|i: int| 0 <= i < s.len() ==> is_digit(#[trigger] s[i])
}

/// The number that a sequence of decimal digits writes, most significant
/// digit first.
pub open spec fn decimal_value(s: Seq<char>) -> nat
    decreases s.len(),
{
    if s.len() == 0 {
        0
    } else {
        (decimal_value(s.drop_last()) * 10 + (s.last() as int - '0' as int)) as nat
    }
}

/// The digits of a number text: the text without its sign, if it has one.
pub open spec fn unsigned_part(s: Seq<char>) -> Seq<char> {
    if s.len() > 0 && (s[0] == '-' || s[0] == '+') {
        s.subrange(1, s.len() as int)
    } else {
        s
    }
}

/// The integer that `s` writes: an optional `+` or `-`, then one or more
/// decimal digits and nothing else.
pub open spec fn signed_value(s: Seq<char>) -> int {
    if s.len() > 0 && s[0] == '-' {
        -(decimal_value(unsigned_part(s)) as int)
    } else {
        decimal_value(unsigned_part(s)) as int
    }
}

/// What [`parse_i64`] returns: the integer that `s` writes, where `s` is a
/// number text and the integer fits in 64 bits.
pub open spec fn spec_parse_i64(s: Seq<char>) -> Option<i64> {
    if unsigned_part(s).len() > 0 && all_digits(unsigned_part(s)) && i64::MIN <= signed_value(s)
        <= i64::MAX {
        Some(signed_value(s) as i64)
    } else {
        None
    }
}

/// A longer digit sequence never writes a smaller number than its prefix.
pub proof fn lemma_decimal_value_prefix(s: Seq<char>, k: int)
    requires
        0 <= k <= s.len(),
        all_digits(s),
    ensures
        decimal_value(s.take(k)) <= decimal_value(s),
    decreases s.len(),
{
    if k == s.len() {
        assert(s.take(k) =~= s);
    } else {
        let t = s.drop_last();
        assert(all_digits(t)) by {
            assert forall|i: int| 0 <= i < t.len() implies is_digit(#[trigger] t[i]) by {
                assert(t[i] == s[i]);
            }
        }
        lemma_decimal_value_prefix(t, k);
        assert(t.take(k) =~= s.take(k));
        assert(is_digit(s[s.len() - 1]));
    }
}

/// The bytes of an ASCII string are its characters, one for one.
pub proof fn lemma_ascii_bytes(s: &str)
    requires
        is_ascii(s),
    ensures
        s.spec_bytes().len() == s@.len(),
        forall|i: int|
            0 <= i < s@.len() ==> #[trigger] s.spec_bytes()[i] == s@[i] as u8 && '\0' <= s@[i]
                <= '\u{7f}',
{
    vstd::string::is_ascii_spec_bytes(s);
}

/// What [`digits_value`] returns for the digits `d` and the bound `limit`.
pub open spec fn bounded_decimal(d: Seq<char>, limit: u64) -> Option<u64> {
    if all_digits(d) && decimal_value(d) <= limit {
        Some(decimal_value(d) as u64)
    } else {
        None
    }
}

/// The number that the bytes from `start` on write in decimal, if they are
/// all digits and the number is at most `limit`.
fn digits_value(bytes: &[u8], start: usize, limit: u64, Ghost(d): Ghost<Seq<char>>) -> (r: Option<
    u64,
>)
    requires
        start <= bytes@.len(),
        d.len() == bytes@.len() - start,
        forall|j: int|
            start <= j < bytes@.len() ==> #[trigger] bytes@[j] == d[j - start] as u8 && '\0'
                <= d[j - start] <= '\u{7f}',
    ensures
        r == bounded_decimal(d, limit),
{
    let n = bytes.len();
    let mut acc: u64 = 0;
    let mut i: usize = start;
    assert(d.take(0) =~= Seq::<char>::empty());
    while i < n
        invariant
            start <= i <= n,
            n == bytes@.len(),
            d.len() == n - start,
            forall|j: int|
                start <= j < bytes@.len() ==> #[trigger] bytes@[j] == d[j - start] as u8 && '\0'
                    <= d[j - start] <= '\u{7f}',
            all_digits(d.take(i - start)),
            acc == decimal_value(d.take(i - start)),
            acc <= limit,
        decreases n - i,
    {
        let b = bytes[i];
        let ghost c = d[i - start];
        assert(bytes@[i as int] == c as u8 && '\0' <= c <= '\u{7f}');
        if b < 48u8 || b > 57u8 {
            assert(!is_digit(c));
            return None;
        }
        assert(is_digit(c));
        let v: u64 = (b - 48u8) as u64;
        assert(v == c as int - '0' as int);
        let ghost next = d.take(i - start + 1);
        proof {
            assert(next.drop_last() =~= d.take(i - start));
            assert(next.last() == c);
            assert(decimal_value(next) == acc * 10 + v);
            assert forall|k: int| 0 <= k < next.len() implies is_digit(#[trigger] next[k]) by {
                if k < next.len() - 1 {
                    assert(d.take(i - start)[k] == next[k]);
                }
            }
        }
        if acc > limit / 10 || (acc == limit / 10 && v > limit % 10) {
            proof {
                if all_digits(d) {
                    lemma_decimal_value_prefix(d, i - start + 1);
                }
            }
            return None;
        }
        acc = acc * 10 + v;
        i += 1;
    }
    assert(d.take(n - start) =~= d);
    Some(acc)
}

/// What [`parse_digits`] returns: the number that `s` writes, where `s` is one
/// or more decimal digits and the number is at most `limit`.
pub open spec fn spec_parse_digits(s: Seq<char>, limit: u64) -> Option<u64> {
    if s.len() > 0 {
        bounded_decimal(s, limit)
    } else {
        None
    }
}

/// A sequence of decimal digits is ASCII.
pub proof fn lemma_digits_are_ascii(s: Seq<char>)
    requires
        all_digits(s),
    ensures
        is_ascii_chars(s),
{
    assert forall|i: int| 0 <= i < s.len() implies '\0' <= #[trigger] s[i] <= '\u{7f}' by {
        assert(is_digit(s[i]));
    }
}

/// Reads a number written as decimal digits and nothing else; `None` for any
/// other text and for a number above `limit`.
pub fn parse_digits(s: &str, limit: u64) -> (r: Option<u64>)
    ensures
        r == spec_parse_digits(s@, limit),
{
    if !s.is_ascii() {
        proof {
            if all_digits(s@) {
                lemma_digits_are_ascii(s@);
            }
        }
        return None;
    }
    proof {
        lemma_ascii_bytes(s);
    }
    let bytes = s.as_bytes();
    if bytes.len() == 0 {
        return None;
    }
    assert forall|j: int| 0 <= j < bytes@.len() implies #[trigger] bytes@[j] == s@[j - 0] as u8
        && '\0' <= s@[j - 0] <= '\u{7f}' by {
        assert(bytes@[j] == s.spec_bytes()[j]);
    }
    digits_value(bytes, 0, limit, Ghost(s@))
}

/// A text with a character outside ASCII writes no number.
proof fn lemma_non_ascii_is_no_number(s: Seq<char>)
    requires
        !is_ascii_chars(s),
    ensures
        spec_parse_i64(s) is None,
{
    let i = choose|i: int| 0 <= i < s.len() && !('\0' <= #[trigger] s[i] <= '\u{7f}');
    let d = unsigned_part(s);
    if d.len() == s.len() {
        assert(!is_digit(d[i]));
    } else if i > 0 {
        assert(d[i - 1] == s[i]);
        assert(!is_digit(d[i - 1]));
    }
}

/// Reads a decimal integer as `str::parse::<i64>` does: an optional sign,
/// then digits only; `None` for any other text and for a number that does not
/// fit.
pub fn parse_i64(s: &str) -> (r: Option<i64>)
    ensures
        r == spec_parse_i64(s@),
{
    if !s.is_ascii() {
        proof {
            lemma_non_ascii_is_no_number(s@);
        }
        return None;
    }
    proof {
        lemma_ascii_bytes(s);
    }
    let bytes = s.as_bytes();
    let n = bytes.len();
    if n == 0 {
        return None;
    }
    let first = bytes[0];
    assert(first == s@[0] as u8 && '\0' <= s@[0] <= '\u{7f}');
    let negative = first == 45u8;
    let signed = negative || first == 43u8;
    let start: usize = if signed { 1 } else { 0 };
    let ghost d = unsigned_part(s@);
    if start == n {
        return None;
    }
    let limit: u64 = if negative { 9223372036854775808u64 } else { 9223372036854775807u64 };
    assert forall|j: int| start <= j < bytes@.len() implies #[trigger] bytes@[j] == d[j
        - start] as u8 && '\0' <= d[j - start] <= '\u{7f}' by {
        assert(d[j - start] == s@[j]);
        assert(bytes@[j] == s.spec_bytes()[j]);
    }
    match digits_value(bytes, start, limit, Ghost(d)) {
        None => None,
        Some(m) => {
            if negative {
                if m == 9223372036854775808u64 {
                    Some(i64::MIN)
                } else {
                    Some(-(m as i64))
                }
            } else {
                Some(m as i64)
            }
        },
    }
}

/// What [`parse_u64`] returns: the number that `s` writes, where `s` is an
/// optional `+`, then one or more decimal digits and nothing else, and the
/// number fits in 64 bits.
pub open spec fn spec_parse_u64(s: Seq<char>) -> Option<u64> {
    if s.len() > 0 && s[0] == '+' {
        spec_parse_digits(s.subrange(1, s.len() as int), u64::MAX)
    } else {
        spec_parse_digits(s, u64::MAX)
    }
}

/// Reads a decimal integer without a sign as `str::parse::<u64>` does.
pub fn parse_u64(s: &str) -> (r: Option<u64>)
    ensures
        r == spec_parse_u64(s@),
{
    if !s.is_ascii() {
        proof {
            let i = choose|i: int| 0 <= i < s@.len() && !('\0' <= #[trigger] s@[i] <= '\u{7f}');
            if s@[0] == '+' {
                let d = s@.subrange(1, s@.len() as int);
                assert(d[i - 1] == s@[i]);
                assert(!is_digit(d[i - 1]));
            } else {
                assert(!is_digit(s@[i]));
            }
        }
        return None;
    }
    proof {
        lemma_ascii_bytes(s);
    }
    let bytes = s.as_bytes();
    let n = bytes.len();
    if n > 0 && bytes[0] == 43u8 {
        assert(bytes@[0] == s@[0] as u8 && '\0' <= s@[0] <= '\u{7f}');
        parse_digits(s.substring_ascii(1, n), u64::MAX)
    } else {
        if n > 0 {
            assert(bytes@[0] == s@[0] as u8 && '\0' <= s@[0] <= '\u{7f}');
        }
        parse_digits(s, u64::MAX)
    }
}

/// The place of the first comma in an ASCII text.
pub(crate) fn find_comma(s: &str) -> (r: Option<usize>)
    requires
        is_ascii(s),
    ensures
        match r {
            Some(i) => i < s@.len() && s@[i as int] == ',' && forall|k: int|
                0 <= k < i ==> s@[k] != ',',
            None => forall|k: int| 0 <= k < s@.len() ==> s@[k] != ',',
        },
{
    proof {
        lemma_ascii_bytes(s);
    }
    let bytes = s.as_bytes();
    let mut i: usize = 0;
    while i < bytes.len()
        invariant
            i <= bytes@.len(),
            bytes@.len() == s@.len(),
            forall|j: int|
                0 <= j < s@.len() ==> #[trigger] bytes@[j] == s@[j] as u8 && '\0' <= s@[j]
                    <= '\u{7f}',
            forall|k: int| 0 <= k < i ==> s@[k] != ',',
        decreases bytes@.len() - i,
    {
        assert(bytes@[i as int] == s@[i as int] as u8 && '\0' <= s@[i as int] <= '\u{7f}');
        if bytes[i] == 44u8 {
            return Some(i);
        }
        i += 1;
    }
    None
}

} // verus!
