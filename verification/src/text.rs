//! Whitespace trimming of a tool's text output.
//!
//! A transcription tool's artifact usually ends in a newline and may start
//! with padding; the runner returns the text with surrounding whitespace
//! removed.

use vstd::prelude::*;

verus! {

/// A whitespace character, as the trimming removes it: the characters with
/// the Unicode `White_Space` property.
pub open spec fn is_blank_char(c: char) -> bool {
    ||| c == '\t'
    ||| c == '\n'
    ||| c == '\u{b}'
    ||| c == '\u{c}'
    ||| c == '\r'
    ||| c == ' '
    ||| c == '\u{85}'
    ||| c == '\u{a0}'
    ||| c == '\u{1680}'
    ||| c == '\u{2000}'
    ||| c == '\u{2001}'
    ||| c == '\u{2002}'
    ||| c == '\u{2003}'
    ||| c == '\u{2004}'
    ||| c == '\u{2005}'
    ||| c == '\u{2006}'
    ||| c == '\u{2007}'
    ||| c == '\u{2008}'
    ||| c == '\u{2009}'
    ||| c == '\u{200a}'
    ||| c == '\u{2028}'
    ||| c == '\u{2029}'
    ||| c == '\u{202f}'
    ||| c == '\u{205f}'
    ||| c == '\u{3000}'
}

/// `s` without its leading whitespace.
pub open spec fn trim_start_spec(s: Seq<char>) -> Seq<char>
    decreases s.len(),
{
    if s.len() > 0 && is_blank_char(s[0]) {
        trim_start_spec(s.drop_first())
    } else {
        s
    }
}

/// `s` without its trailing whitespace.
pub open spec fn trim_end_spec(s: Seq<char>) -> Seq<char>
    decreases s.len(),
{
    if s.len() > 0 && is_blank_char(s[s.len() - 1]) {
        trim_end_spec(s.drop_last())
    } else {
        s
    }
}

/// `s` without leading and trailing whitespace.
pub open spec fn trim_spec(s: Seq<char>) -> Seq<char> {
    trim_end_spec(trim_start_spec(s))
}

fn is_blank(c: char) -> (r: bool)
    ensures
        r == is_blank_char(c),
{
    c == '\t' || c == '\n' || c == '\u{b}' || c == '\u{c}' || c == '\r' || c == ' ' || c
        == '\u{85}' || c == '\u{a0}' || c == '\u{1680}' || c == '\u{2000}' || c == '\u{2001}' || c
        == '\u{2002}' || c == '\u{2003}' || c == '\u{2004}' || c == '\u{2005}' || c == '\u{2006}'
        || c == '\u{2007}' || c == '\u{2008}' || c == '\u{2009}' || c == '\u{200a}' || c
        == '\u{2028}' || c == '\u{2029}' || c == '\u{202f}' || c == '\u{205f}' || c == '\u{3000}'
}

/// Remove surrounding whitespace from `s`.
pub fn trim_text(s: &str) -> (r: String)
    ensures
        r@ == trim_spec(s@),
{
    let n = s.unicode_len();
    let ghost view = s@;
    proof {
        assert(view.subrange(0, n as int) =~= view);
    }
    let mut i: usize = 0;
    while i < n && is_blank(s.get_char(i))
        invariant
            0 <= i <= n == view.len(),
            s@ == view,
            forall|k: int| 0 <= k < i ==> is_blank_char(view[k]),
            trim_start_spec(view) == trim_start_spec(view.subrange(i as int, n as int)),
        decreases n - i,
    {
        proof {
            let tail = view.subrange(i as int, n as int);
            assert(tail[0] == view[i as int]);
            assert(tail.drop_first() =~= view.subrange(i as int + 1, n as int));
        }
        i = i + 1;
    }
    proof {
        let tail = view.subrange(i as int, n as int);
        if i < n {
            assert(tail[0] == view[i as int]);
            assert(trim_start_spec(tail) == tail);
        } else {
            assert(tail.len() == 0);
            assert(trim_start_spec(tail) == tail);
        }
    }
    let ghost start_trimmed = view.subrange(i as int, n as int);
    let mut j: usize = n;
    while j > i && is_blank(s.get_char(j - 1))
        invariant
            i <= j <= n == view.len(),
            s@ == view,
            trim_start_spec(view) == start_trimmed,
            start_trimmed == view.subrange(i as int, n as int),
            trim_end_spec(start_trimmed) == trim_end_spec(view.subrange(i as int, j as int)),
        decreases j,
    {
        proof {
            let part = view.subrange(i as int, j as int);
            assert(part.len() == j - i > 0);
            assert(part[part.len() - 1] == view[j as int - 1]);
            assert(part.drop_last() =~= view.subrange(i as int, j as int - 1));
        }
        j = j - 1;
    }
    proof {
        let part = view.subrange(i as int, j as int);
        if j > i {
            assert(part[part.len() - 1] == view[j as int - 1]);
            assert(trim_end_spec(part) == part);
        } else {
            assert(part.len() == 0);
            assert(trim_end_spec(part) == part);
        }
    }
    let r = String::from_str(s.substring_char(i, j));
    proof {
        assert(r@ == trim_spec(view));
    }
    r
}

} // verus!
