//! Text helpers over characters: equality, substring search, prefixes.
use vstd::prelude::*;
use vstd::string::*;

verus! {

/// `needle` occurs in `hay` starting at position `i`.
pub open spec fn occurs_at(hay: Seq<char>, needle: Seq<char>, i: int) -> bool {
    0 <= i && i + needle.len() <= hay.len() && hay.subrange(i, i + needle.len()) == needle
}

/// `needle` occurs somewhere in `hay` (the empty text occurs everywhere).
pub open spec fn contains_text(hay: Seq<char>, needle: Seq<char>) -> bool {
    exists|i: int| occurs_at(hay, needle, i)
}

pub open spec fn starts_with_text(hay: Seq<char>, prefix: Seq<char>) -> bool {
    occurs_at(hay, prefix, 0)
}

/// Whether two texts are equal, character by character.
pub fn text_eq(a: &str, b: &str) -> (r: bool)
    ensures
        r == (a@ == b@),
{
    let n = a.unicode_len();
    if n != b.unicode_len() {
        return false;
    }
    let mut i: usize = 0;
    while i < n
        invariant
            n == a@.len(),
            n == b@.len(),
            i <= n,
            forall|k: int| 0 <= k < i ==> a@[k] == b@[k],
        decreases n - i,
    {
        if a.get_char(i) != b.get_char(i) {
            return false;
        }
        i += 1;
    }
    assert(a@ =~= b@);
    true
}

/// Whether `needle` occurs in `hay` at position `i`.
pub fn occurs_at_exec(hay: &str, needle: &str, i: usize) -> (r: bool)
    ensures
        r == occurs_at(hay@, needle@, i as int),
{
    let n = hay.unicode_len();
    let m = needle.unicode_len();
    if i > n || m > n - i {
        return false;
    }
    let mut k: usize = 0;
    while k < m
        invariant
            n == hay@.len(),
            m == needle@.len(),
            i + m <= n,
            k <= m,
            forall|j: int| 0 <= j < k ==> hay@[i + j] == needle@[j],
        decreases m - k,
    {
        if hay.get_char(i + k) != needle.get_char(k) {
            assert(hay@.subrange(i as int, i + m)[k as int] != needle@[k as int]);
            return false;
        }
        k += 1;
    }
    assert(hay@.subrange(i as int, i + m) =~= needle@);
    true
}

/// Whether `needle` occurs in `hay`.
pub fn contains_exec(hay: &str, needle: &str) -> (r: bool)
    ensures
        r == contains_text(hay@, needle@),
{
    let n = hay.unicode_len();
    let m = needle.unicode_len();
    if m > n {
        assert forall|i: int| !occurs_at(hay@, needle@, i) by {}
        return false;
    }
    let mut i: usize = 0;
    loop
        invariant
            n == hay@.len(),
            m == needle@.len(),
            m <= n,
            i <= n - m,
            forall|j: int| 0 <= j < i ==> !occurs_at(hay@, needle@, j),
        decreases n - m - i,
    {
        if occurs_at_exec(hay, needle, i) {
            return true;
        }
        if i == n - m {
            assert forall|j: int| !occurs_at(hay@, needle@, j) by {
                if 0 <= j && j < i {
                }
            }
            return false;
        }
        i += 1;
    }
}

/// Whether `hay` starts with `prefix`.
pub fn starts_with_exec(hay: &str, prefix: &str) -> (r: bool)
    ensures
        r == starts_with_text(hay@, prefix@),
{
    occurs_at_exec(hay, prefix, 0)
}

/// The text a `str::to_lowercase` call produces from `s`.
pub uninterp spec fn lowercase(s: Seq<char>) -> Seq<char>;

/// `str::to_lowercase`, Unicode lower-casing; its result is named.
#[verifier::external_body]
pub(crate) fn to_lower(s: &str) -> (r: String)
    ensures
        r@ == lowercase(s@),
{
    s.to_lowercase()
}

/// `s` without its leading whitespace.
pub open spec fn trim_start_ws(s: Seq<char>) -> Seq<char>
    decreases s.len(),
{
    if s.len() > 0 && is_ws(s[0]) {
        trim_start_ws(s.drop_first())
    } else {
        s
    }
}

/// `s` without its trailing whitespace.
pub open spec fn trim_end_ws(s: Seq<char>) -> Seq<char>
    decreases s.len(),
{
    if s.len() > 0 && is_ws(s.last()) {
        trim_end_ws(s.drop_last())
    } else {
        s
    }
}

/// `s` without leading and trailing whitespace (Unicode `White_Space`).
pub open spec fn trimmed(s: Seq<char>) -> Seq<char> {
    trim_end_ws(trim_start_ws(s))
}

/// `s` without leading and trailing whitespace, as `str::trim` gives it.
pub(crate) fn trim_text(s: &str) -> (r: &str)
    ensures
        r@ == trimmed(s@),
{
    let n = s.unicode_len();
    let mut i: usize = 0;
    assert(s@.subrange(0, n as int) =~= s@);
    while i < n && is_ws_exec(s.get_char(i))
        invariant
            i <= n,
            n == s@.len(),
            trim_start_ws(s@) == trim_start_ws(s@.subrange(i as int, n as int)),
        decreases n - i,
    {
        proof {
            let sub = s@.subrange(i as int, n as int);
            assert(sub[0] == s@[i as int]);
            assert(sub.drop_first() =~= s@.subrange(i + 1, n as int));
        }
        i += 1;
    }
    proof {
        let sub = s@.subrange(i as int, n as int);
        if i < n {
            assert(sub[0] == s@[i as int]);
        } else {
            assert(sub.len() == 0);
        }
        assert(trim_start_ws(s@) == sub);
    }
    let mut j: usize = n;
    while j > i && is_ws_exec(s.get_char(j - 1))
        invariant
            i <= j <= n,
            n == s@.len(),
            trim_end_ws(s@.subrange(i as int, n as int)) == trim_end_ws(s@.subrange(i as int, j as int)),
        decreases j - i,
    {
        proof {
            let sub = s@.subrange(i as int, j as int);
            assert(sub.last() == s@[j - 1]);
            assert(sub.drop_last() =~= s@.subrange(i as int, j - 1));
        }
        j -= 1;
    }
    proof {
        let sub = s@.subrange(i as int, j as int);
        if j > i {
            assert(sub.last() == s@[j - 1]);
        } else {
            assert(sub.len() == 0);
        }
        assert(trim_end_ws(sub) == sub);
    }
    s.substring_char(i, j)
}


/// The character of a decimal digit.
pub open spec fn digit_char(d: int) -> char {
    if d == 0 { '0' } else if d == 1 { '1' } else if d == 2 { '2' } else if d == 3 { '3' }
    else if d == 4 { '4' } else if d == 5 { '5' } else if d == 6 { '6' } else if d == 7 { '7' }
    else if d == 8 { '8' } else { '9' }
}

/// The decimal numeral of `n`, without leading zeros.
pub open spec fn decimal(n: nat) -> Seq<char>
    decreases n,
{
    if n < 10 {
        seq![digit_char(n as int)]
    } else {
        decimal(n / 10).push(digit_char((n % 10) as int))
    }
}

fn digit_str(d: u64) -> (r: &'static str)
    requires
        d < 10,
    ensures
        r@ == seq![digit_char(d as int)],
{
    proof {
        reveal_strlit("0");
        reveal_strlit("1");
        reveal_strlit("2");
        reveal_strlit("3");
        reveal_strlit("4");
        reveal_strlit("5");
        reveal_strlit("6");
        reveal_strlit("7");
        reveal_strlit("8");
        reveal_strlit("9");
    }
    if d == 0 { "0" } else if d == 1 { "1" } else if d == 2 { "2" } else if d == 3 { "3" }
    else if d == 4 { "4" } else if d == 5 { "5" } else if d == 6 { "6" } else if d == 7 { "7" }
    else if d == 8 { "8" } else { "9" }
}

/// `n` written in decimal, as `to_string` writes an unsigned integer.
pub fn decimal_text(n: u64) -> (r: String)
    ensures
        r@ == decimal(n as nat),
    decreases n,
{
    if n < 10 {
        String::from_str(digit_str(n))
    } else {
        let mut s = decimal_text(n / 10);
        s.append(digit_str(n % 10));
        s
    }
}


/// The first position at which `needle` occurs in `hay`, if it occurs.
#[verifier::opaque]
pub open spec fn first_occurrence(hay: Seq<char>, needle: Seq<char>) -> Option<int> {
    if exists|i: int| occurs_at(hay, needle, i) {
        Some(choose|i: int| occurs_at(hay, needle, i) && forall|j: int| 0 <= j < i ==> !occurs_at(hay, needle, j))
    } else {
        None
    }
}

proof fn lemma_first_occurrence(hay: Seq<char>, needle: Seq<char>, i: int)
    requires
        occurs_at(hay, needle, i),
        forall|j: int| 0 <= j < i ==> !occurs_at(hay, needle, j),
    ensures
        first_occurrence(hay, needle) == Some(i),
{
    reveal(first_occurrence);
    let c = choose|c: int| occurs_at(hay, needle, c) && forall|j: int| 0 <= j < c ==> !occurs_at(hay, needle, j);
    assert(occurs_at(hay, needle, c) && forall|j: int| 0 <= j < c ==> !occurs_at(hay, needle, j));
    if c < i {
        assert(!occurs_at(hay, needle, c));
    } else if c > i {
        assert(!occurs_at(hay, needle, i));
    }
}

/// The pieces of `hay` between the occurrences of a non-empty `sep`, found
/// from the left without overlap, as `str::split` gives them.
pub open spec fn split_parts(hay: Seq<char>, sep: Seq<char>) -> Seq<Seq<char>>
    decreases hay.len(),
{
    if sep.len() == 0 {
        seq![hay]
    } else {
        match first_occurrence(hay, sep) {
            Some(i) => if 0 <= i && i + sep.len() <= hay.len() {
                seq![hay.subrange(0, i)] + split_parts(hay.subrange(i + sep.len(), hay.len() as int), sep)
            } else {
                seq![hay]
            },
            None => seq![hay],
        }
    }
}

/// Where `needle` first occurs in `hay`.
pub fn find_text(hay: &str, needle: &str) -> (r: Option<usize>)
    ensures
        match r {
            Some(i) => first_occurrence(hay@, needle@) == Some(i as int) && occurs_at(hay@, needle@, i as int),
            None => first_occurrence(hay@, needle@) is None,
        },
{
    let n = hay.unicode_len();
    let m = needle.unicode_len();
    if m > n {
        assert forall|i: int| !occurs_at(hay@, needle@, i) by {}
        proof {
            reveal(first_occurrence);
        }
        return None;
    }
    let mut i: usize = 0;
    loop
        invariant
            n == hay@.len(),
            m == needle@.len(),
            m <= n,
            i <= n - m,
            forall|j: int| 0 <= j < i ==> !occurs_at(hay@, needle@, j),
        decreases n - m - i,
    {
        if occurs_at_exec(hay, needle, i) {
            proof {
                lemma_first_occurrence(hay@, needle@, i as int);
            }
            return Some(i);
        }
        if i == n - m {
            assert forall|j: int| !occurs_at(hay@, needle@, j) by {
                if 0 <= j && j < i {
                }
            }
            proof {
                reveal(first_occurrence);
            }
            return None;
        }
        i += 1;
    }
}

proof fn lemma_split_at(hay: Seq<char>, sep: Seq<char>, i: int)
    requires
        sep.len() > 0,
        first_occurrence(hay, sep) == Some(i),
        occurs_at(hay, sep, i),
    ensures
        split_parts(hay, sep) == seq![hay.subrange(0, i)] + split_parts(hay.subrange(i + sep.len(), hay.len() as int), sep),
{
    reveal_with_fuel(split_parts, 1);
}

proof fn lemma_split_none(hay: Seq<char>, sep: Seq<char>)
    requires
        sep.len() > 0,
        first_occurrence(hay, sep) is None,
    ensures
        split_parts(hay, sep) == seq![hay],
{
    reveal_with_fuel(split_parts, 1);
}

proof fn lemma_texts_push(v: Seq<String>, s: String)
    ensures
        v.push(s).map_values(|p: String| p@) == v.map_values(|p: String| p@).push(s@),
{
    assert(v.push(s).map_values(|p: String| p@) =~= v.map_values(|p: String| p@).push(s@));
}

/// `hay` split at each occurrence of a non-empty `sep`.
pub fn split_text(hay: &str, sep: &str) -> (r: Vec<String>)
    requires
        sep@.len() > 0,
    ensures
        r@.map_values(|p: String| p@) == split_parts(hay@, sep@),
{
    let mut parts: Vec<String> = Vec::new();
    let mut rest: &str = hay;
    let m = sep.unicode_len();
    assert(parts@.map_values(|p: String| p@) =~= Seq::<Seq<char>>::empty());
    loop
        invariant
            m == sep@.len(),
            m > 0,
            parts@.map_values(|p: String| p@) + split_parts(rest@, sep@) == split_parts(hay@, sep@),
        decreases rest@.len(),
    {
        let ghost before = parts@.map_values(|p: String| p@);
        match find_text(rest, sep) {
            Some(i) => {
                let n = rest.unicode_len();
                let piece = rest.substring_char(0, i);
                let next = rest.substring_char(i + m, n);
                proof {
                    lemma_split_at(rest@, sep@, i as int);
                }
                let owned = piece.to_owned();
                proof {
                    lemma_texts_push(parts@, owned);
                    assert(before.push(piece@) + split_parts(next@, sep@) =~= before + (seq![piece@] + split_parts(next@, sep@)));
                }
                parts.push(owned);
                rest = next;
            },
            None => {
                proof {
                    lemma_split_none(rest@, sep@);
                }
                let owned = rest.to_owned();
                proof {
                    lemma_texts_push(parts@, owned);
                    assert(before.push(rest@) =~= before + seq![rest@]);
                }
                parts.push(owned);
                return parts;
            },
        }
    }
}


// ── Integers written in ASCII ─────────────────────────────────

pub open spec fn is_digit(c: u8) -> bool {
    48 <= c && c <= 57
}

pub open spec fn all_digits(b: Seq<u8>) -> bool {
    forall|i: int| 0 <= i < b.len() ==> is_digit(#[trigger] b[i])
}

/// The value of a run of decimal digits.
pub open spec fn digits_value(b: Seq<u8>) -> nat
    decreases b.len(),
{
    if b.len() == 0 {
        0
    } else {
        digits_value(b.drop_last()) * 10 + (b.last() - 48) as nat
    }
}

/// What `str::parse` gives for an unsigned type whose largest value is
/// `max`: an optional `+`, then one or more digits, within range.
pub open spec fn spec_parse_unsigned(b: Seq<u8>, max: nat) -> Option<nat> {
    let d = if b.len() > 0 && b[0] == 43 { b.drop_first() } else { b };
    if d.len() > 0 && all_digits(d) && digits_value(d) <= max {
        Some(digits_value(d))
    } else {
        None
    }
}

/// What `str::parse` gives for a signed type: an optional `+` or `-`, then
/// one or more digits, within range.
pub open spec fn spec_parse_signed(b: Seq<u8>, min: int, max: int) -> Option<int> {
    if b.len() > 0 && b[0] == 45 {
        let d = b.drop_first();
        if d.len() > 0 && all_digits(d) && -(digits_value(d) as int) >= min {
            Some(-(digits_value(d) as int))
        } else {
            None
        }
    } else {
        match spec_parse_unsigned(b, max as nat) {
            Some(v) => Some(v as int),
            None => None,
        }
    }
}

proof fn lemma_digits_prefix_le(b: Seq<u8>, k: int)
    requires
        all_digits(b),
        0 <= k <= b.len(),
    ensures
        digits_value(b.take(k)) <= digits_value(b),
    decreases b.len(),
{
    if k < b.len() {
        assert(all_digits(b.drop_last()));
        lemma_digits_prefix_le(b.drop_last(), k);
        assert(b.drop_last().take(k) =~= b.take(k));
    } else {
        assert(b.take(k) =~= b);
    }
}

proof fn lemma_digits_bound(b: Seq<u8>)
    requires
        all_digits(b),
    ensures
        digits_value(b) < pow10(b.len()),
    decreases b.len(),
{
    if b.len() > 0 {
        assert(all_digits(b.drop_last()));
        lemma_digits_bound(b.drop_last());
    }
}

pub open spec fn pow10(n: nat) -> nat
    decreases n,
{
    if n == 0 {
        1
    } else {
        10 * pow10((n - 1) as nat)
    }
}

/// The digits `b[start..end]` read as a number no larger than `max`, or
/// `None` where a byte is not a digit, there is none, or the number is larger.
fn digits_in(b: &[u8], start: usize, end: usize, max: u64) -> (r: Option<u64>)
    requires
        start <= end <= b@.len(),
    ensures
        ({
            let d = b@.subrange(start as int, end as int);
            match r {
                Some(v) => d.len() > 0 && all_digits(d) && digits_value(d) <= max && v == digits_value(d),
                None => !(d.len() > 0 && all_digits(d) && digits_value(d) <= max),
            }
        }),
{
    let ghost d = b@.subrange(start as int, end as int);
    if start == end {
        return None;
    }
    let mut acc: u64 = 0;
    let mut i: usize = start;
    while i < end
        invariant
            start <= i <= end <= b@.len(),
            d == b@.subrange(start as int, end as int),
            all_digits(d.take(i - start)),
            acc == digits_value(d.take(i - start)),
            acc <= max,
        decreases end - i,
    {
        let c = b[i];
        if c < 48 || c > 57 {
            assert(!is_digit(d[i - start]));
            return None;
        }
        proof {
            assert(d.take(i - start + 1).drop_last() =~= d.take(i - start));
            assert(d.take(i - start + 1).last() == c);
            assert(all_digits(d.take(i - start + 1)));
        }
        let digit = (c - 48) as u64;
        if digit > max || acc > (max - digit) / 10 {
            proof {
                assert(acc * 10 + digit > max) by (nonlinear_arith)
                    requires
                        digit > max || acc > (max - digit) / 10,
                        digit <= 9,
                ;
                if all_digits(d) {
                    lemma_digits_prefix_le(d, i - start + 1);
                }
            }
            return None;
        }
        proof {
            assert(acc * 10 + digit <= max) by (nonlinear_arith)
                requires
                    acc <= (max - digit) / 10,
                    digit <= max,
            ;
        }
        acc = acc * 10 + digit;
        i += 1;
    }
    assert(d.take(i - start) =~= d);
    Some(acc)
}


pub open spec fn opt_nat_u64(o: Option<nat>) -> Option<u64> {
    match o {
        Some(v) => Some(v as u64),
        None => None,
    }
}

/// `b[start..end]` parsed as an unsigned number no larger than `max`.
pub fn parse_unsigned_in(b: &[u8], start: usize, end: usize, max: u64) -> (r: Option<u64>)
    requires
        start <= end <= b@.len(),
    ensures
        r == opt_nat_u64(spec_parse_unsigned(b@.subrange(start as int, end as int), max as nat)),
{
    let ghost s = b@.subrange(start as int, end as int);
    if start < end && b[start] == 43 {
        assert(s.drop_first() =~= b@.subrange(start + 1, end as int));
        digits_in(b, start + 1, end, max)
    } else {
        digits_in(b, start, end, max)
    }
}

/// `b[start..end]` parsed as a signed number; short enough that it fits.
pub fn parse_signed_in(b: &[u8], start: usize, end: usize) -> (r: Option<i64>)
    requires
        start <= end <= b@.len(),
        end - start <= 18,
    ensures
        r == match spec_parse_signed(b@.subrange(start as int, end as int), i64::MIN as int, i64::MAX as int) {
            Some(v) => Some(v as i64),
            None => None::<i64>,
        },
{
    let ghost s = b@.subrange(start as int, end as int);
    let limit: u64 = 999_999_999_999_999_999;
    if start < end && b[start] == 45 {
        assert(s.drop_first() =~= b@.subrange(start + 1, end as int));
        match digits_in(b, start + 1, end, limit) {
            Some(v) => Some(-(v as i64)),
            None => {
                proof {
                    let d = s.drop_first();
                    if d.len() > 0 && all_digits(d) {
                        lemma_digits_bound(d);
                        lemma_pow10_17(d.len());
                    }
                }
                None
            },
        }
    } else {
        let ghost t = if s.len() > 0 && s[0] == 43 { s.drop_first() } else { s };
        match parse_unsigned_in(b, start, end, limit) {
            Some(v) => Some(v as i64),
            None => {
                proof {
                    if t.len() > 0 && all_digits(t) {
                        lemma_digits_bound(t);
                        lemma_pow10_17(t.len());
                    }
                }
                None
            },
        }
    }
}

proof fn lemma_pow10_mono(n: nat, m: nat)
    requires
        n <= m,
    ensures
        pow10(n) <= pow10(m),
    decreases m,
{
    if n < m {
        lemma_pow10_mono(n, (m - 1) as nat);
    }
}

proof fn lemma_pow10_17(n: nat)
    requires
        n <= 18,
    ensures
        pow10(n) <= 1_000_000_000_000_000_000,
{
    lemma_pow10_mono(n, 18);
    reveal_with_fuel(pow10, 19);
}


/// A signed number written in at most four bytes is small.
pub proof fn lemma_small_parse(b: Seq<u8>)
    requires
        b.len() <= 4,
    ensures
        spec_parse_signed(b, i64::MIN as int, i64::MAX as int) matches Some(v) ==> -10000 <= v <= 10000,
{
    if b.len() > 0 && b[0] == 45 {
        let d = b.drop_first();
        if d.len() > 0 && all_digits(d) {
            lemma_digits_bound(d);
            lemma_pow10_mono(d.len(), 4);
            reveal_with_fuel(pow10, 5);
        }
    } else {
        let d = if b.len() > 0 && b[0] == 43 { b.drop_first() } else { b };
        if d.len() > 0 && all_digits(d) {
            lemma_digits_bound(d);
            lemma_pow10_mono(d.len(), 4);
            reveal_with_fuel(pow10, 5);
        }
    }
}

/// An unsigned number written in at most two bytes is below 100.
pub proof fn lemma_two_digits_small(b: Seq<u8>)
    requires
        b.len() <= 2,
    ensures
        spec_parse_unsigned(b, u32::MAX as nat) matches Some(v) ==> v < 100,
{
    let d = if b.len() > 0 && b[0] == 43 { b.drop_first() } else { b };
    if d.len() > 0 && all_digits(d) {
        lemma_digits_bound(d);
        lemma_pow10_mono(d.len(), 2);
        reveal_with_fuel(pow10, 3);
    }
}


/// `n` written in decimal with a leading `-` when negative, as `to_string`
/// writes a signed integer.
pub open spec fn signed_decimal(n: int) -> Seq<char> {
    if n < 0 {
        "-"@ + decimal((-n) as nat)
    } else {
        decimal(n as nat)
    }
}

pub fn signed_decimal_text(n: i64) -> (r: String)
    ensures
        r@ == signed_decimal(n as int),
{
    if n < 0 {
        let magnitude: u64 = if n == i64::MIN { 9223372036854775808u64 } else { (-n) as u64 };
        String::from_str("-").concat(decimal_text(magnitude).as_str())
    } else {
        decimal_text(n as u64)
    }
}


// ── Words ────────────────────────────────────────────────────

/// `char::is_whitespace`: the characters with Unicode's White_Space property.
pub open spec fn is_ws(c: char) -> bool {
    let u = c as u32;
    (0x9 <= u && u <= 0xD) || u == 0x20 || u == 0x85 || u == 0xA0 || u == 0x1680 || (0x2000 <= u && u <= 0x200A)
        || u == 0x2028 || u == 0x2029 || u == 0x202F || u == 0x205F || u == 0x3000
}

pub fn is_ws_exec(c: char) -> (r: bool)
    ensures
        r == is_ws(c),
{
    let u = c as u32;
    (0x9 <= u && u <= 0xD) || u == 0x20 || u == 0x85 || u == 0xA0 || u == 0x1680 || (0x2000 <= u && u <= 0x200A)
        || u == 0x2028 || u == 0x2029 || u == 0x202F || u == 0x205F || u == 0x3000
}

/// The words of `s` read so far, and whether the last one is still open.
pub open spec fn words_open(s: Seq<char>) -> (Seq<Seq<char>>, bool)
    decreases s.len(),
{
    if s.len() == 0 {
        (Seq::empty(), false)
    } else {
        let (ws, open) = words_open(s.drop_last());
        let c = s.last();
        if is_ws(c) {
            (ws, false)
        } else if open {
            (ws.update(ws.len() - 1, ws.last().push(c)), true)
        } else {
            (ws.push(seq![c]), true)
        }
    }
}

/// The maximal runs of non-whitespace in `s`, as `str::split_whitespace` gives them.
pub open spec fn words(s: Seq<char>) -> Seq<Seq<char>> {
    words_open(s).0
}

proof fn lemma_words_open_shape(s: Seq<char>)
    ensures
        words_open(s).1 ==> words_open(s).0.len() > 0,
    decreases s.len(),
{
    if s.len() > 0 {
        lemma_words_open_shape(s.drop_last());
    }
}

/// The words of `s`.
pub fn split_words(s: &str) -> (r: Vec<String>)
    ensures
        r@.map_values(|w: String| w@) == words(s@),
{
    let n = s.unicode_len();
    let mut out: Vec<String> = Vec::new();
    let mut start: usize = 0;
    let mut open = false;
    let mut i: usize = 0;
    while i < n
        invariant
            n == s@.len(),
            i <= n,
            start <= i,
            open == words_open(s@.take(i as int)).1,
            open ==> out@.map_values(|w: String| w@).push(s@.subrange(start as int, i as int)) == words_open(
                s@.take(i as int),
            ).0,
            !open ==> out@.map_values(|w: String| w@) == words_open(s@.take(i as int)).0,
        decreases n - i,
    {
        let c = s.get_char(i);
        let ghost before = s@.take(i as int);
        assert(s@.take(i + 1).drop_last() =~= before);
        assert(s@.take(i + 1).last() == c);
        if is_ws_exec(c) {
            if open {
                let w = s.substring_char(start, i);
                let ghost prev = out@.map_values(|w: String| w@);
                out.push(w.to_owned());
                assert(out@.map_values(|w: String| w@) =~= prev.push(s@.subrange(start as int, i as int)));
                open = false;
            }
        } else {
            if open {
                proof {
                    let prev = out@.map_values(|w: String| w@);
                    assert(s@.subrange(start as int, i + 1) =~= s@.subrange(start as int, i as int).push(c));
                    assert(prev.push(s@.subrange(start as int, i as int)).update(
                        prev.len() as int,
                        s@.subrange(start as int, i as int).push(c),
                    ) =~= prev.push(s@.subrange(start as int, i + 1)));
                }
            } else {
                start = i;
                open = true;
                assert(s@.subrange(start as int, i + 1) =~= seq![c]);
            }
        }
        i += 1;
    }
    assert(s@.take(i as int) =~= s@);
    if open {
        let w = s.substring_char(start, n);
        let ghost prev = out@.map_values(|w: String| w@);
        out.push(w.to_owned());
        assert(out@.map_values(|w: String| w@) =~= prev.push(s@.subrange(start as int, n as int)));
    }
    out
}


/// The character of a hexadecimal digit, lower case.
pub open spec fn hex_char(d: int) -> char {
    if d < 10 {
        digit_char(d)
    } else if d == 10 {
        'a'
    } else if d == 11 {
        'b'
    } else if d == 12 {
        'c'
    } else if d == 13 {
        'd'
    } else if d == 14 {
        'e'
    } else {
        'f'
    }
}

/// `n` in lower-case hexadecimal without leading zeros, as `{:x}` writes it.
pub open spec fn hex(n: nat) -> Seq<char>
    decreases n,
{
    if n < 16 {
        seq![hex_char(n as int)]
    } else {
        hex(n / 16).push(hex_char((n % 16) as int))
    }
}

fn hex_digit_str(d: u64) -> (r: &'static str)
    requires
        d < 16,
    ensures
        r@ == seq![hex_char(d as int)],
{
    if d < 10 {
        digit_str(d)
    } else {
        proof {
            reveal_strlit("a");
            reveal_strlit("b");
            reveal_strlit("c");
            reveal_strlit("d");
            reveal_strlit("e");
            reveal_strlit("f");
        }
        if d == 10 { "a" } else if d == 11 { "b" } else if d == 12 { "c" } else if d == 13 { "d" }
        else if d == 14 { "e" } else { "f" }
    }
}

pub fn hex_text(n: u64) -> (r: String)
    ensures
        r@ == hex(n as nat),
    decreases n,
{
    if n < 16 {
        String::from_str(hex_digit_str(n))
    } else {
        let mut s = hex_text(n / 16);
        s.append(hex_digit_str(n % 16));
        s
    }
}

} // verus!
