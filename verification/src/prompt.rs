//! The interactive boundary: what the user is shown and asked, and how a line
//! typed in reply is read.

use crate::registry::same_text;
use vstd::prelude::*;
use vstd::string::*;

verus! {

/// Question put to the user before a registry install.
pub const INSTALL_PROMPT: &'static str = "Install it via Wasmer? (y/n): ";

/// Request for a download location, put to the user for a language that the
/// registry does not know.
pub const URL_PROMPT: &'static str =
    "Language not predefined. Provide a URL to the WASM runtime: ";

/// Whether `c` is white space: a character with the Unicode property
/// `White_Space`. These are the tab, line feed, vertical tab, form feed and
/// carriage return, the blank, the next-line control, the no-break space, the
/// ogham space mark, the spaces from the en quad to the hair space, the line
/// and paragraph separators, the narrow no-break space, the medium
/// mathematical space and the ideographic space.
pub open spec fn whitespace(c: char) -> bool {
    let code = c as u32;
    ||| 0x09 <= code <= 0x0d
    ||| code == 0x20
    ||| code == 0x85
    ||| code == 0xa0
    ||| code == 0x1680
    ||| 0x2000 <= code <= 0x200a
    ||| code == 0x2028
    ||| code == 0x2029
    ||| code == 0x202f
    ||| code == 0x205f
    ||| code == 0x3000
}

/// Whether `c` is white space.
pub fn is_whitespace(c: char) -> (space: bool)
    ensures
        space == whitespace(c),
{
    let code: u32 = c as u32;
    (0x09 <= code && code <= 0x0d) || code == 0x20 || code == 0x85 || code == 0xa0 || code
        == 0x1680 || (0x2000 <= code && code <= 0x200a) || code == 0x2028 || code == 0x2029
        || code == 0x202f || code == 0x205f || code == 0x3000
}

/// `s` without its leading white space.
pub open spec fn trim_start(s: Seq<char>) -> Seq<char>
    decreases s.len(),
{
    if s.len() > 0 && whitespace(s[0]) {
        trim_start(s.drop_first())
    } else {
        s
    }
}

/// `s` without its trailing white space.
pub open spec fn trim_end(s: Seq<char>) -> Seq<char>
    decreases s.len(),
{
    if s.len() > 0 && whitespace(s.last()) {
        trim_end(s.drop_last())
    } else {
        s
    }
}

/// `s` without its surrounding white space.
pub open spec fn trimmed(s: Seq<char>) -> Seq<char> {
    trim_end(trim_start(s))
}

/// Whether `s[a..b]` is what is left of `s` once the white space around it
/// is gone.
pub open spec fn trim_bounds(s: Seq<char>, a: int, b: int) -> bool {
    &&& 0 <= a <= b <= s.len()
    &&& forall|i: int| 0 <= i < a ==> whitespace(#[trigger] s[i])
    &&& forall|i: int| b <= i < s.len() ==> whitespace(#[trigger] s[i])
    &&& a < b ==> !whitespace(s[a]) && !whitespace(s[b - 1])
}

proof fn trim_start_drops_prefix(s: Seq<char>, a: int)
    requires
        0 <= a <= s.len(),
        forall|i: int| 0 <= i < a ==> whitespace(#[trigger] s[i]),
        a < s.len() ==> !whitespace(s[a]),
    ensures
        trim_start(s) == s.subrange(a, s.len() as int),
    decreases a,
{
    if a == 0 {
        assert(s.subrange(0, s.len() as int) =~= s);
    } else {
        let rest = s.drop_first();
        assert(whitespace(s[0]));
        assert forall|i: int| 0 <= i < a - 1 implies whitespace(#[trigger] rest[i]) by {
            assert(rest[i] == s[i + 1]);
        }
        trim_start_drops_prefix(rest, a - 1);
        assert(rest.subrange(a - 1, rest.len() as int) =~= s.subrange(a, s.len() as int));
    }
}

proof fn trim_end_drops_suffix(s: Seq<char>, b: int)
    requires
        0 <= b <= s.len(),
        forall|i: int| b <= i < s.len() ==> whitespace(#[trigger] s[i]),
        0 < b ==> !whitespace(s[b - 1]),
    ensures
        trim_end(s) == s.subrange(0, b),
    decreases s.len() - b,
{
    if b == s.len() {
        assert(s.subrange(0, b) =~= s);
    } else {
        let rest = s.drop_last();
        assert(whitespace(s[s.len() - 1]));
        assert forall|i: int| b <= i < rest.len() implies whitespace(#[trigger] rest[i]) by {
            assert(rest[i] == s[i]);
        }
        trim_end_drops_suffix(rest, b);
        assert(rest.subrange(0, b) =~= s.subrange(0, b));
    }
}

/// The bounds of the trimmed text determine it.
pub proof fn trimmed_by_bounds(s: Seq<char>, a: int, b: int)
    requires
        trim_bounds(s, a, b),
    ensures
        trimmed(s) == s.subrange(a, b),
{
    if a < b {
        trim_start_drops_prefix(s, a);
        let tail = s.subrange(a, s.len() as int);
        assert forall|i: int| b - a <= i < tail.len() implies whitespace(#[trigger] tail[i]) by {
            assert(tail[i] == s[a + i]);
        }
        assert(tail[b - a - 1] == s[b - 1]);
        trim_end_drops_suffix(tail, b - a);
        assert(tail.subrange(0, b - a) =~= s.subrange(a, b));
    } else {
        assert forall|i: int| 0 <= i < s.len() implies whitespace(#[trigger] s[i]) by {
            if i < a {
            } else {
            }
        }
        trim_start_drops_prefix(s, s.len() as int);
        let tail = s.subrange(s.len() as int, s.len() as int);
        assert(tail.len() == 0);
        assert(trim_end(tail) == tail);
        assert(tail =~= s.subrange(a, b));
    }
}

/// A line as typed, without the white space around it (the end of line
/// included).
pub fn trim_line(line: &str) -> (text: String)
    ensures
        text@ == trimmed(line@),
{
    let total = line.unicode_len();
    let mut start: usize = 0;
    let mut end: usize = 0;
    let mut index: usize = 0;
    for c in it: line.chars()
        invariant
            it.seq() == line@,
            total == line@.len(),
            index == it.index(),
            start <= end <= index <= total,
            forall|i: int| 0 <= i < start ==> whitespace(#[trigger] line@[i]),
            forall|i: int| end <= i < index ==> whitespace(#[trigger] line@[i]),
            start < end ==> !whitespace(line@[start as int]) && !whitespace(line@[end - 1]),
            start == end ==> start == 0,
    {
        if !is_whitespace(c) {
            if start == end {
                start = index;
            }
            end = index + 1;
        }
        index = index + 1;
    }
    proof {
        trimmed_by_bounds(line@, start as int, end as int);
    }
    String::from_str(line.substring_char(start, end))
}

/// Whether `choice` says yes: the letter y alone, in either case.
pub open spec fn affirmative(choice: Seq<char>) -> bool {
    choice == seq!['y'] || choice == seq!['Y']
}

/// Whether the user's trimmed reply agrees to the installation.
pub fn is_affirmative(choice: &str) -> (yes: bool)
    ensures
        yes == affirmative(choice@),
{
    proof {
        reveal_strlit("y");
        reveal_strlit("Y");
        assert("y"@ =~= seq!['y']);
        assert("Y"@ =~= seq!['Y']);
    }
    same_text(choice, "y") || same_text(choice, "Y")
}

/// The line that reports a missing runtime.
pub open spec fn missing_runtime_notice(language: Seq<char>) -> Seq<char> {
    "No runtime found for '"@ + language + "'."@
}

/// The line that reports a finished registry install.
pub open spec fn registry_install_notice(language: Seq<char>) -> Seq<char> {
    "Installed '"@ + language + "' via Wasmer"@
}

/// The line that reports a finished URL install.
pub open spec fn url_install_notice(language: Seq<char>) -> Seq<char> {
    "Installed '"@ + language + "' from URL"@
}

/// `before`, then `middle`, then `after`.
pub fn enclose(before: &str, middle: &str, after: &str) -> (text: String)
    ensures
        text@ == before@ + middle@ + after@,
{
    let mut text = String::from_str(before);
    text.append(middle);
    text.append(after);
    text
}

/// What surrounds the trimmed text is white space, and the trimmed text
/// neither starts nor ends with white space.
pub proof fn trimmed_is_the_visible_core(s: Seq<char>)
    ensures
        exists|a: int, b: int| trim_bounds(s, a, b) && trimmed(s) == s.subrange(a, b),
        trimmed(s).len() > 0 ==> !whitespace(trimmed(s)[0]) && !whitespace(trimmed(s).last()),
        trimmed(trimmed(s)) == trimmed(s),
{
    let (a, b) = visible_bounds(s);
    trimmed_by_bounds(s, a, b);
    let t = trimmed(s);
    assert(trim_bounds(s, a, b) && trimmed(s) == s.subrange(a, b));
    if t.len() > 0 {
        assert(t[0] == s[a]);
        assert(t.last() == s[b - 1]);
        assert(trim_bounds(t, 0, t.len() as int));
        trimmed_by_bounds(t, 0, t.len() as int);
        assert(t.subrange(0, t.len() as int) =~= t);
    } else {
        assert(trim_bounds(t, 0, 0));
        trimmed_by_bounds(t, 0, 0);
        assert(t.subrange(0, 0) =~= t);
    }
}

/// Bounds of the visible part of `s`, found from the front.
proof fn visible_bounds(s: Seq<char>) -> (bounds: (int, int))
    ensures
        trim_bounds(s, bounds.0, bounds.1),
    decreases s.len(),
{
    if s.len() == 0 {
        (0, 0)
    } else if !whitespace(s.last()) {
        let (a, b) = visible_bounds(s.drop_last());
        let rest = s.drop_last();
        if a < b {
            assert forall|i: int| 0 <= i < a implies whitespace(#[trigger] s[i]) by {
                assert(rest[i] == s[i]);
            }
            assert(rest[a] == s[a]);
            (a, s.len() as int)
        } else {
            assert forall|i: int| 0 <= i < s.len() - 1 implies whitespace(#[trigger] s[i]) by {
                assert(rest[i] == s[i]);
                if i < a {
                } else {
                }
            }
            (s.len() - 1, s.len() as int)
        }
    } else {
        let (a, b) = visible_bounds(s.drop_last());
        let rest = s.drop_last();
        assert forall|i: int| 0 <= i < a implies whitespace(#[trigger] s[i]) by {
            assert(rest[i] == s[i]);
        }
        assert forall|i: int| b <= i < s.len() implies whitespace(#[trigger] s[i]) by {
            if i < s.len() - 1 {
                assert(rest[i] == s[i]);
            }
        }
        if a < b {
            assert(rest[a] == s[a]);
            assert(rest[b - 1] == s[b - 1]);
        }
        (a, b)
    }
}

} // verus!
