//! Lines of a text, prefixes and suffixes cut off, and a character trimmed
//! from both ends: the shapes in which desktop tools print what they know.
use vstd::prelude::*;
use vstd::string::*;

use crate::text::{occurs_at, occurs_at_exec, split_parts, split_text, starts_with_text};

verus! {

pub open spec fn texts(v: Seq<String>) -> Seq<Seq<char>> {
    v.map_values(|s: String| s@)
}

/// A line without the carriage return of a "\r\n" ending.
pub open spec fn strip_cr(l: Seq<char>) -> Seq<char> {
    if l.len() > 0 && l.last() == '\r' {
        l.drop_last()
    } else {
        l
    }
}

/// The lines of a text, as `str::lines` gives them: split at each "\n"
/// (a "\r" just before it belongs to the ending), the final ending optional,
/// so that no empty line follows the last ending.
pub open spec fn text_lines(s: Seq<char>) -> Seq<Seq<char>> {
    let p = split_parts(s, seq!['\n']);
    p.drop_last().map_values(|l: Seq<char>| strip_cr(l)) + if p.len() > 0 && p.last().len() > 0 {
        seq![p.last()]
    } else {
        Seq::empty()
    }
}

/// The first line of a text, or the empty text when it has none.
pub open spec fn first_line(s: Seq<char>) -> Seq<char> {
    if text_lines(s).len() > 0 {
        text_lines(s)[0]
    } else {
        Seq::empty()
    }
}

proof fn lemma_split_nonempty(hay: Seq<char>, sep: Seq<char>)
    ensures
        split_parts(hay, sep).len() >= 1,
{
    reveal_with_fuel(split_parts, 1);
}

fn strip_cr_text(l: &str) -> (r: String)
    ensures
        r@ == strip_cr(l@),
{
    let n = l.unicode_len();
    if n > 0 && l.get_char(n - 1) == '\r' {
        l.substring_char(0, n - 1).to_owned()
    } else {
        l.to_owned()
    }
}

/// The lines of `s`.
pub fn lines_of(s: &str) -> (r: Vec<String>)
    ensures
        texts(r@) == text_lines(s@),
{
    proof {
        reveal_strlit("\n");
        assert("\n"@ =~= seq!['\n']);
    }
    let parts = split_text(s, "\n");
    let ghost p = split_parts(s@, seq!['\n']);
    proof {
        lemma_split_nonempty(s@, seq!['\n']);
        assert(parts@.map_values(|q: String| q@) == p);
    }
    let n = parts.len();
    let mut out: Vec<String> = Vec::new();
    let mut i: usize = 0;
    while i + 1 < n
        invariant
            n == parts@.len(),
            n >= 1,
            i + 1 <= n,
            parts@.map_values(|q: String| q@) == p,
            texts(out@) == p.take(i as int).map_values(|l: Seq<char>| strip_cr(l)),
        decreases n - i,
    {
        let line = strip_cr_text(parts[i].as_str());
        let ghost before = texts(out@);
        proof {
            assert(parts@[i as int]@ == p[i as int]);
        }
        out.push(line);
        proof {
            assert(texts(out@) =~= before.push(strip_cr(p[i as int])));
            assert(p.take(i + 1).map_values(|l: Seq<char>| strip_cr(l)) =~= p.take(i as int).map_values(
                |l: Seq<char>| strip_cr(l),
            ).push(strip_cr(p[i as int])));
        }
        i += 1;
    }
    proof {
        assert(p.take(i as int) =~= p.drop_last());
        assert(parts@[n - 1]@ == p.last());
    }
    if parts[n - 1].as_str().unicode_len() > 0 {
        let ghost before = texts(out@);
        out.push(parts[n - 1].clone());
        proof {
            assert(texts(out@) =~= before + seq![p.last()]);
        }
    } else {
        proof {
            assert(texts(out@) =~= texts(out@) + Seq::<Seq<char>>::empty());
        }
    }
    out
}

/// `s` without the prefix `p`, when it starts with it.
pub open spec fn without_prefix(s: Seq<char>, p: Seq<char>) -> Option<Seq<char>> {
    if starts_with_text(s, p) {
        Some(s.skip(p.len() as int))
    } else {
        None
    }
}

pub open spec fn ends_with_text(s: Seq<char>, p: Seq<char>) -> bool {
    occurs_at(s, p, s.len() - p.len())
}

/// `s` without the suffix `p`, when it ends with it.
pub open spec fn without_suffix(s: Seq<char>, p: Seq<char>) -> Option<Seq<char>> {
    if ends_with_text(s, p) {
        Some(s.take(s.len() - p.len()))
    } else {
        None
    }
}

/// `str::strip_prefix`.
pub fn strip_prefix_text(s: &str, p: &str) -> (r: Option<String>)
    ensures
        match without_prefix(s@, p@) {
            Some(t) => r matches Some(u) && u@ == t,
            None => r is None,
        },
{
    if occurs_at_exec(s, p, 0) {
        Some(s.substring_char(p.unicode_len(), s.unicode_len()).to_owned())
    } else {
        None
    }
}

/// `str::strip_suffix`.
pub fn strip_suffix_text(s: &str, p: &str) -> (r: Option<String>)
    ensures
        match without_suffix(s@, p@) {
            Some(t) => r matches Some(u) && u@ == t,
            None => r is None,
        },
{
    let n = s.unicode_len();
    let m = p.unicode_len();
    if m > n {
        return None;
    }
    if occurs_at_exec(s, p, n - m) {
        Some(s.substring_char(0, n - m).to_owned())
    } else {
        None
    }
}

/// `s` without the leading characters equal to `c`.
pub open spec fn drop_lead(s: Seq<char>, c: char) -> Seq<char>
    decreases s.len(),
{
    if s.len() > 0 && s[0] == c {
        drop_lead(s.skip(1), c)
    } else {
        s
    }
}

/// `s` without the trailing characters equal to `c`.
pub open spec fn drop_trail(s: Seq<char>, c: char) -> Seq<char>
    decreases s.len(),
{
    if s.len() > 0 && s.last() == c {
        drop_trail(s.drop_last(), c)
    } else {
        s
    }
}

/// `str::trim_matches` with one character: `s` without `c` at either end.
pub open spec fn trim_char(s: Seq<char>, c: char) -> Seq<char> {
    drop_trail(drop_lead(s, c), c)
}

pub fn trim_char_text(s: &str, c: char) -> (r: String)
    ensures
        r@ == trim_char(s@, c),
{
    let n = s.unicode_len();
    let mut start: usize = 0;
    assert(s@.skip(0) =~= s@);
    while start < n && s.get_char(start) == c
        invariant
            n == s@.len(),
            start <= n,
            drop_lead(s@, c) == drop_lead(s@.skip(start as int), c),
        decreases n - start,
    {
        proof {
            assert(s@.skip(start as int).skip(1) =~= s@.skip(start + 1));
        }
        start += 1;
    }
    let mut end: usize = n;
    while end > start && s.get_char(end - 1) == c
        invariant
            n == s@.len(),
            start <= end <= n,
            drop_lead(s@, c) == s@.skip(start as int),
            trim_char(s@, c) == drop_trail(s@.subrange(start as int, end as int), c),
        decreases end - start,
    {
        proof {
            assert(s@.subrange(start as int, end as int).drop_last() =~= s@.subrange(
                start as int,
                end - 1,
            ));
        }
        end -= 1;
    }
    s.substring_char(start, end).to_owned()
}

} // verus!
