//! Whitespace cleanup for scraped attribute values.

use vstd::prelude::*;

verus! {

/// Relies on `String::push`: appends the given character to the end of the
/// string.
pub assume_specification[ String::push ](s: &mut String, c: char)
    ensures
        final(s)@ == old(s)@.push(c),
;

/// The whitespace characters that titles and attribute values are cleaned of.
pub open spec fn is_space(c: char) -> bool {
    c == ' ' || c == '\t' || c == '\n' || c == '\r' || c == '\u{b}' || c == '\u{c}'
}

fn char_is_space(c: char) -> (r: bool)
    ensures
        r == is_space(c),
{
    c == ' ' || c == '\t' || c == '\n' || c == '\r' || c == '\u{b}' || c == '\u{c}'
}

/// The sequence without its leading whitespace.
pub open spec fn trim_front(s: Seq<char>) -> Seq<char>
    decreases s.len(),
{
    if s.len() > 0 && is_space(s[0]) {
        trim_front(s.drop_first())
    } else {
        s
    }
}

/// The sequence without its trailing whitespace.
pub open spec fn trim_back(s: Seq<char>) -> Seq<char>
    decreases s.len(),
{
    if s.len() > 0 && is_space(s.last()) {
        trim_back(s.drop_last())
    } else {
        s
    }
}

/// The sequence without leading and trailing whitespace.
pub open spec fn trimmed(s: Seq<char>) -> Seq<char> {
    trim_back(trim_front(s))
}

/// Every whitespace character replaced by a plain space.
pub open spec fn space_normalized(s: Seq<char>) -> Seq<char> {
    Seq::new(s.len(), |i: int| if is_space(s[i]) { ' ' } else { s[i] })
}

/// Every run of consecutive spaces shortened to a single space.
pub open spec fn dedup_spaces(s: Seq<char>) -> Seq<char>
    decreases s.len(),
{
    if s.len() == 0 {
        Seq::empty()
    } else if s.last() == ' ' && s.len() >= 2 && s[s.len() - 2] == ' ' {
        dedup_spaces(s.drop_last())
    } else {
        dedup_spaces(s.drop_last()).push(s.last())
    }
}

/// Drops the at most one leading and one trailing space that remain once
/// space runs are shortened.
pub open spec fn trim_outer_spaces(s: Seq<char>) -> Seq<char> {
    let a = if s.len() > 0 && s[0] == ' ' {
        s.drop_first()
    } else {
        s
    };
    if a.len() > 0 && a.last() == ' ' {
        a.drop_last()
    } else {
        a
    }
}

/// The sequence with surrounding whitespace removed and every internal
/// whitespace run collapsed to a single space.
pub open spec fn collapse_ws(s: Seq<char>) -> Seq<char> {
    trim_outer_spaces(dedup_spaces(space_normalized(s)))
}

/// Removes leading and trailing whitespace.
pub fn trim_whitespace(s: &str) -> (r: String)
    ensures
        r@ == trimmed(s@),
{
    let len = s.unicode_len();
    let mut start: usize = 0;
    proof {
        assert(s@.skip(0) =~= s@);
    }
    while start < len && char_is_space(s.get_char(start))
        invariant
            0 <= start <= len,
            len == s@.len(),
            trim_front(s@) == trim_front(s@.skip(start as int)),
        decreases len - start,
    {
        proof {
            assert(s@.skip(start as int).drop_first() =~= s@.skip(start as int + 1));
        }
        start = start + 1;
    }
    proof {
        if start == len {
            assert(s@.skip(start as int) =~= Seq::<char>::empty());
        }
        assert(trim_front(s@) == s@.skip(start as int));
    }
    let mut end: usize = len;
    while end > start && char_is_space(s.get_char(end - 1))
        invariant
            start <= end <= len,
            len == s@.len(),
            trim_front(s@) == s@.skip(start as int),
            trim_back(s@.skip(start as int)) == trim_back(s@.subrange(start as int, end as int)),
        decreases end,
    {
        proof {
            assert(s@.subrange(start as int, end as int).drop_last() =~= s@.subrange(
                start as int,
                end as int - 1,
            ));
        }
        end = end - 1;
    }
    proof {
        if end == start {
            assert(s@.subrange(start as int, end as int) =~= Seq::<char>::empty());
        }
        assert(trimmed(s@) == s@.subrange(start as int, end as int));
    }
    s.substring_char(start, end).to_owned()
}

/// Removes surrounding whitespace and collapses every internal whitespace run
/// to a single space.
pub fn collapse_whitespace(s: &str) -> (r: String)
    ensures
        r@ == collapse_ws(s@),
{
    let len = s.unicode_len();
    let mut out = String::new();
    let mut prev_space = false;
    let mut i: usize = 0;
    while i < len
        invariant
            0 <= i <= len,
            len == s@.len(),
            out@ == dedup_spaces(space_normalized(s@.take(i as int))),
            prev_space == (i > 0 && is_space(s@[i as int - 1])),
        decreases len - i,
    {
        let c = s.get_char(i);
        let c_space = char_is_space(c);
        proof {
            assert(space_normalized(s@.take(i as int + 1)).drop_last() =~= space_normalized(
                s@.take(i as int),
            ));
        }
        if c_space {
            if !prev_space {
                out.push(' ');
            }
        } else {
            out.push(c);
        }
        prev_space = c_space;
        i = i + 1;
    }
    proof {
        assert(s@.take(len as int) =~= s@);
    }
    let olen = out.unicode_len();
    let start: usize = if olen > 0 && out.as_str().get_char(0) == ' ' {
        1
    } else {
        0
    };
    let end: usize = if olen > start && out.as_str().get_char(olen - 1) == ' ' {
        olen - 1
    } else {
        olen
    };
    proof {
        let a = if out@.len() > 0 && out@[0] == ' ' {
            out@.drop_first()
        } else {
            out@
        };
        assert(out@.subrange(start as int, end as int) =~= trim_outer_spaces(out@)) by {
            if start == 1 {
                assert(a =~= out@.subrange(1, olen as int));
            }
            if end < olen {
                assert(a.drop_last() =~= out@.subrange(start as int, end as int));
            }
        }
    }
    out.as_str().substring_char(start, end).to_owned()
}

} // verus!
