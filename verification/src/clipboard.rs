//! The clipboard watcher's logic: which tool reads the clipboard, what kind
//! of content it holds, how it is previewed, and how changes are noticed.
use vstd::prelude::*;
use vstd::string::*;
use vstd::utf8::*;

use crate::resolver::byte_prefix;
use crate::text::{contains_exec, contains_text, hex, hex_text, starts_with_exec, starts_with_text};

verus! {

/// The program used to read the clipboard.
#[derive(Debug, Clone, Copy, PartialEq, Eq, Structural)]
pub enum ClipboardTool {
    WlClipboard,
    Xclip,
    /// Neither tool answers.
    Unavailable,
}

/// Prefer `wl-paste`, then `xclip`, given which of them answer.
pub fn detect_clipboard_tool(has_wl_paste: bool, has_xclip: bool) -> (r: ClipboardTool)
    ensures
        r == if has_wl_paste {
            ClipboardTool::WlClipboard
        } else if has_xclip {
            ClipboardTool::Xclip
        } else {
            ClipboardTool::Unavailable
        },
{
    if has_wl_paste {
        return ClipboardTool::WlClipboard;
    }
    if has_xclip {
        return ClipboardTool::Xclip;
    }
    ClipboardTool::Unavailable
}

/// `s` cut to its first `max` bytes followed by "..." when longer.
pub open spec fn spec_truncate(s: Seq<char>, max: nat) -> Seq<char> {
    if encode_utf8(s).len() <= max {
        s
    } else {
        byte_prefix(s, max as int) + "..."@
    }
}

pub fn truncate(s: &str, max: usize) -> (r: String)
    requires
        encode_utf8(s@).len() > max ==> is_char_boundary(encode_utf8(s@), max as int),
    ensures
        r@ == spec_truncate(s@, max as nat),
{
    if s.as_bytes().len() <= max {
        s.to_owned()
    } else {
        let (head, _) = s.split_at(max);
        proof {
            broadcast use encode_utf8_decode_utf8;
            assert(encode_utf8(head@) == head.spec_bytes());
        }
        String::from_str(head).concat("...")
    }
}

/// How many `\n` the text holds.
pub open spec fn newlines(s: Seq<char>) -> nat
    decreases s.len(),
{
    if s.len() == 0 {
        0
    } else {
        newlines(s.drop_last()) + if s.last() == '\n' { 1nat } else { 0nat }
    }
}

/// How many lines `str::lines` yields: one per line ending, plus a last
/// line without one.
pub open spec fn line_count(s: Seq<char>) -> nat {
    if s.len() == 0 {
        0
    } else {
        newlines(s) + if s.last() == '\n' { 0nat } else { 1nat }
    }
}

proof fn lemma_newlines_le(s: Seq<char>)
    ensures
        newlines(s) <= s.len(),
    decreases s.len(),
{
    if s.len() > 0 {
        lemma_newlines_le(s.drop_last());
    }
}

fn line_count_exec(s: &str) -> (r: usize)
    ensures
        r == line_count(s@),
{
    let n = s.unicode_len();
    let mut count: usize = 0;
    let mut i: usize = 0;
    while i < n
        invariant
            n == s@.len(),
            i <= n,
            count == newlines(s@.take(i as int)),
            count <= i,
        decreases n - i,
    {
        assert(s@.take(i + 1).drop_last() =~= s@.take(i as int));
        if s.get_char(i) == '\n' {
            count += 1;
        }
        i += 1;
    }
    assert(s@.take(i as int) =~= s@);
    if n == 0 {
        0
    } else if s.get_char(n - 1) == '\n' {
        count
    } else {
        proof {
            lemma_newlines_le(s@.drop_last());
        }
        count + 1
    }
}

/// The kind of a clipboard text: a web address, text of more than three
/// lines, a path (any text with a `/`), or plain text.
pub open spec fn spec_content_type(c: Seq<char>) -> Seq<char> {
    if starts_with_text(c, "http://"@) || starts_with_text(c, "https://"@) {
        "url"@
    } else if contains_text(c, "\n"@) && line_count(c) > 3 {
        "multiline-text"@
    } else if starts_with_text(c, "/"@) || contains_text(c, "/"@) {
        "path"@
    } else {
        "text"@
    }
}

pub fn detect_content_type(content: &str) -> (r: String)
    ensures
        r@ == spec_content_type(content@),
{
    if starts_with_exec(content, "http://") || starts_with_exec(content, "https://") {
        String::from_str("url")
    } else if contains_exec(content, "\n") && line_count_exec(content) > 3 {
        String::from_str("multiline-text")
    } else if starts_with_exec(content, "/") || contains_exec(content, "/") {
        String::from_str("path")
    } else {
        String::from_str("text")
    }
}

/// The 64-bit FNV-1a hash of some bytes.
pub open spec fn fnv1a(bytes: Seq<u8>) -> u64
    decreases bytes.len(),
{
    if bytes.len() == 0 {
        0xcbf29ce484222325u64
    } else {
        let h = fnv1a(bytes.drop_last()) ^ (bytes.last() as u64);
        ((h as nat * 0x100000001b3nat) % 0x1_0000_0000_0000_0000nat) as u64
    }
}

/// The FNV-1a hash of the text's UTF-8 bytes, in hexadecimal: what the
/// watcher compares to notice a change.
pub fn simple_hash(s: &str) -> (r: String)
    ensures
        r@ == hex(fnv1a(encode_utf8(s@)) as nat),
{
    let bytes = s.as_bytes();
    let mut hash: u64 = 0xcbf29ce484222325;
    let mut i: usize = 0;
    while i < bytes.len()
        invariant
            i <= bytes@.len(),
            bytes@ == encode_utf8(s@),
            hash == fnv1a(bytes@.take(i as int)),
        decreases bytes@.len() - i,
    {
        assert(bytes@.take(i + 1).drop_last() =~= bytes@.take(i as int));
        hash = hash ^ (bytes[i] as u64);
        hash = hash.wrapping_mul(0x100000001b3);
        i += 1;
    }
    assert(bytes@.take(i as int) =~= bytes@);
    hex_text(hash)
}

} // verus!
