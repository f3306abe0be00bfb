//! Trailing-whitespace trimming for captured hook output.

use vstd::prelude::*;

verus! {

/// A character with the Unicode `White_Space` property: exactly the set that
/// `char::is_whitespace` in std recognizes.
pub open spec fn is_whitespace_char(c: char) -> bool {
    c == ' ' || c == '\t' || c == '\n' || c == '\u{b}' || c == '\u{c}' || c == '\r'
        || c == '\u{85}' || c == '\u{a0}' || c == '\u{1680}'
        || (c >= '\u{2000}' && c <= '\u{200a}') || c == '\u{2028}' || c == '\u{2029}'
        || c == '\u{202f}' || c == '\u{205f}' || c == '\u{3000}'
}

/// `s` with every trailing whitespace character removed.
pub open spec fn trimmed_end(s: Seq<char>) -> Seq<char>
    decreases s.len(),
{
    if s.len() == 0 {
        s
    } else if is_whitespace_char(s.last()) {
        trimmed_end(s.drop_last())
    } else {
        s
    }
}

fn is_whitespace(c: char) -> (r: bool)
    ensures
        r == is_whitespace_char(c),
{
    c == ' ' || c == '\t' || c == '\n' || c == '\u{b}' || c == '\u{c}' || c == '\r'
        || c == '\u{85}' || c == '\u{a0}' || c == '\u{1680}'
        || (c >= '\u{2000}' && c <= '\u{200a}') || c == '\u{2028}' || c == '\u{2029}'
        || c == '\u{202f}' || c == '\u{205f}' || c == '\u{3000}'
}

/// Removes trailing whitespace, as each hook's stdout and stderr captures are
/// trimmed before they are judged and printed.
pub fn trim_end(s: &str) -> (r: String)
    ensures
        r@ == trimmed_end(s@),
{
    let len = s.unicode_len();
    let mut end = len;
    proof {
        assert(s@.take(len as int) =~= s@);
    }
    while end > 0 && is_whitespace(s.get_char(end - 1))
        invariant
            end <= len,
            len == s@.len(),
            trimmed_end(s@) == trimmed_end(s@.take(end as int)),
        decreases end,
    {
        proof {
            let t = s@.take(end as int);
            assert(t.last() == s@[end - 1]);
            assert(t.drop_last() =~= s@.take(end - 1));
        }
        end = end - 1;
    }
    proof {
        let t = s@.take(end as int);
        if end > 0 {
            assert(t.last() == s@[end - 1]);
            assert(!is_whitespace_char(t.last()));
        }
        assert(trimmed_end(t) == t);
    }
    let r = s.substring_char(0, end);
    proof {
        assert(r@ =~= s@.take(end as int));
    }
    r.to_owned()
}

} // verus!
