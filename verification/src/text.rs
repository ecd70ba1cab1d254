//! Line text utilities: the blank-character set, trimming, and blankness.
//!
//! Input lines are judged and cleaned with these before they are interpreted:
//! a line that trims to nothing is ignored, and the argument of a context
//! directive is stored trimmed.

use vstd::prelude::*;

verus! {

/// The characters that trimming removes: the ASCII blanks a console line can
/// carry (space, tab, carriage return, line feed).
pub open spec fn is_blank_char(c: char) -> bool {
    c == ' ' || c == '\t' || c == '\r' || c == '\n'
}

/// Exec test for [`is_blank_char`].
pub fn blank_char(c: char) -> (b: bool)
    ensures
        b == is_blank_char(c),
{
    c == ' ' || c == '\t' || c == '\r' || c == '\n'
}

/// `s` with its leading blanks removed.
pub open spec fn trim_front(s: Seq<char>) -> Seq<char>
    decreases s.len(),
{
    if s.len() > 0 && is_blank_char(s[0]) {
        trim_front(s.drop_first())
    } else {
        s
    }
}

/// `s` with its trailing blanks removed.
pub open spec fn trim_back(s: Seq<char>) -> Seq<char>
    decreases s.len(),
{
    if s.len() > 0 && is_blank_char(s.last()) {
        trim_back(s.drop_last())
    } else {
        s
    }
}

/// `s` with both leading and trailing blanks removed.
pub open spec fn trimmed(s: Seq<char>) -> Seq<char> {
    trim_back(trim_front(s))
}

/// A line is blank when trimming leaves nothing of it.
pub open spec fn is_blank(s: Seq<char>) -> bool {
    trimmed(s).len() == 0
}

/// Trimming from the back keeps a non-blank head, so a sequence that starts
/// with a non-blank character never trims to nothing.
proof fn lemma_trim_back_keeps_head(s: Seq<char>)
    requires
        s.len() > 0,
        !is_blank_char(s[0]),
    ensures
        trim_back(s).len() > 0,
        trim_back(s)[0] == s[0],
    decreases s.len(),
{
    if is_blank_char(s.last()) {
        assert(s.len() > 1);
        assert(s.drop_last()[0] == s[0]);
        lemma_trim_back_keeps_head(s.drop_last());
    }
}

/// A line whose first character is not blank is not a blank line.
pub proof fn lemma_nonblank_head(s: Seq<char>)
    requires
        s.len() > 0,
        !is_blank_char(s[0]),
    ensures
        !is_blank(s),
        trimmed(s)[0] == s[0],
{
    assert(trim_front(s) == s);
    lemma_trim_back_keeps_head(s);
}

/// The empty line is blank.
pub proof fn lemma_empty_is_blank(s: Seq<char>)
    requires
        s.len() == 0,
    ensures
        is_blank(s),
{
    assert(trim_front(s) == s);
    assert(trim_back(s) == s);
}

/// Compute the trimmed form of a line.
pub fn trim(s: &str) -> (r: String)
    ensures
        r@ == trimmed(s@),
{
    let n = s.unicode_len();
    proof {
        assert(s@.subrange(0, n as int) =~= s@);
    }
    let mut start: usize = 0;
    loop
        invariant
            start <= n,
            n == s@.len(),
            trim_front(s@) == trim_front(s@.subrange(start as int, n as int)),
        ensures
            start <= n,
            trim_front(s@) == s@.subrange(start as int, n as int),
        decreases n - start,
    {
        let ghost tail = s@.subrange(start as int, n as int);
        if start >= n {
            proof {
                assert(tail.len() == 0);
                assert(trim_front(tail) == tail);
            }
            break;
        }
        let c = s.get_char(start);
        if !blank_char(c) {
            proof {
                assert(tail[0] == s@[start as int]);
                assert(trim_front(tail) == tail);
            }
            break;
        }
        proof {
            assert(tail[0] == s@[start as int]);
            assert(tail.drop_first() =~= s@.subrange(start as int + 1, n as int));
        }
        start = start + 1;
    }
    let mut end: usize = n;
    loop
        invariant
            start <= end <= n,
            n == s@.len(),
            trim_front(s@) == s@.subrange(start as int, n as int),
            trim_back(s@.subrange(start as int, n as int)) == trim_back(
                s@.subrange(start as int, end as int),
            ),
        ensures
            start <= end <= n,
            trimmed(s@) == s@.subrange(start as int, end as int),
        decreases end - start,
    {
        let ghost part = s@.subrange(start as int, end as int);
        if end <= start {
            proof {
                assert(part.len() == 0);
                assert(trim_back(part) == part);
            }
            break;
        }
        let c = s.get_char(end - 1);
        if !blank_char(c) {
            proof {
                assert(part.last() == s@[end - 1]);
                assert(trim_back(part) == part);
            }
            break;
        }
        proof {
            assert(part.last() == s@[end - 1]);
            assert(part.drop_last() =~= s@.subrange(start as int, end as int - 1));
        }
        end = end - 1;
    }
    let piece = s.substring_char(start, end);
    piece.to_owned()
}

/// Decide whether a line is blank.
pub fn line_is_blank(s: &str) -> (b: bool)
    ensures
        b == is_blank(s@),
{
    let t = trim(s);
    t.as_str().is_empty()
}

} // verus!
