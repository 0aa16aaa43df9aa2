//! The few string operations that the helper protocol needs, over sequences of characters.

use vstd::prelude::*;

verus! {

/// The characters with the Unicode property `White_Space`.
pub open spec fn is_white_space(c: char) -> bool {
    let code = c as u32;
    ||| 0x9 <= code <= 0xd
    ||| code == 0x20
    ||| code == 0x85
    ||| code == 0xa0
    ||| code == 0x1680
    ||| 0x2000 <= code <= 0x200a
    ||| code == 0x2028
    ||| code == 0x2029
    ||| code == 0x202f
    ||| code == 0x205f
    ||| code == 0x3000
}

/// `s` without its leading white space.
pub open spec fn trim_start(s: Seq<char>) -> Seq<char>
    decreases s.len(),
{
    if s.len() > 0 && is_white_space(s.first()) {
        trim_start(s.drop_first())
    } else {
        s
    }
}

/// `s` without its trailing white space.
pub open spec fn trim_end(s: Seq<char>) -> Seq<char>
    decreases s.len(),
{
    if s.len() > 0 && is_white_space(s.last()) {
        trim_end(s.drop_last())
    } else {
        s
    }
}

/// `s` without the white space at its two ends.
pub open spec fn trimmed(s: Seq<char>) -> Seq<char> {
    trim_end(trim_start(s))
}

/// What follows `prefix` in `s`, if `s` begins with `prefix`.
pub open spec fn after_prefix(s: Seq<char>, prefix: Seq<char>) -> Option<Seq<char>> {
    if prefix.is_prefix_of(s) {
        Some(s.skip(prefix.len() as int))
    } else {
        None
    }
}

/// One line of text: `s` and a line feed.
pub open spec fn line_of(s: Seq<char>) -> Seq<char> {
    s.push('\n')
}

fn white_space(c: char) -> (r: bool)
    ensures
        r == is_white_space(c),
{
    let code: u32 = c as u32;
    (0x9 <= code && code <= 0xd) || code == 0x20 || code == 0x85 || code == 0xa0 || code == 0x1680
        || (0x2000 <= code && code <= 0x200a) || code == 0x2028 || code == 0x2029 || code == 0x202f
        || code == 0x205f || code == 0x3000
}

/// Removes the white space at the two ends of `s`.
pub fn trim(s: &str) -> (r: String)
    ensures
        r@ == trimmed(s@),
{
    let mut chars: Vec<char> = Vec::new();
    for c in it: s.chars()
        invariant
            it.seq() == s@,
            chars@ == s@.take(it.index() as int),
    {
        chars.push(c);
    }
    assert(chars@ == s@);

    let mut start: usize = 0;
    while start < chars.len() && white_space(chars[start])
        invariant
            chars@ == s@,
            start <= chars.len(),
            trim_start(s@) == trim_start(s@.skip(start as int)),
        decreases chars.len() - start,
    {
        assert(s@.skip(start as int).drop_first() == s@.skip(start + 1));
        start = start + 1;
    }
    let mut end: usize = chars.len();
    assert(s@.skip(start as int) == s@.subrange(start as int, end as int));
    while start < end && white_space(chars[end - 1])
        invariant
            chars@ == s@,
            start <= end <= chars.len(),
            trimmed(s@) == trim_end(s@.subrange(start as int, end as int)),
        decreases end,
    {
        assert(s@.subrange(start as int, end as int).drop_last() == s@.subrange(
            start as int,
            end - 1,
        ));
        end = end - 1;
    }
    s.substring_char(start, end).to_owned()
}

/// What follows `prefix` in `s`, or `None` where `s` does not begin with `prefix`.
pub fn strip_prefix<'a>(s: &'a str, prefix: &str) -> (r: Option<&'a str>)
    ensures
        match r {
            Some(rest) => after_prefix(s@, prefix@) == Some(rest@),
            None => after_prefix(s@, prefix@) is None,
        },
{
    let length: usize = s.unicode_len();
    let prefix_length: usize = prefix.unicode_len();
    if length < prefix_length {
        return None;
    }
    let mut i: usize = 0;
    while i < prefix_length
        invariant
            i <= prefix_length <= length,
            length == s@.len(),
            prefix_length == prefix@.len(),
            prefix@.take(i as int) == s@.take(i as int),
        decreases prefix_length - i,
    {
        if s.get_char(i) != prefix.get_char(i) {
            assert(s@.take(prefix@.len() as int)[i as int] != prefix@[i as int]);
            return None;
        }
        assert(prefix@.take(i + 1) == prefix@.take(i as int).push(prefix@[i as int]));
        assert(s@.take(i + 1) == s@.take(i as int).push(s@[i as int]));
        i = i + 1;
    }
    assert(prefix@.take(i as int) == prefix@);
    Some(s.substring_char(prefix_length, length))
}

/// `s` followed by a line feed.
pub fn terminated(s: &str) -> (r: String)
    ensures
        r@ == line_of(s@),
{
    let mut r = s.to_owned();
    r.append("\n");
    proof {
        reveal_strlit("\n");
        assert(s@ + "\n"@ == line_of(s@));
    }
    r
}

/// Trimming takes white space away at the two ends, all of it, and nothing else.
pub proof fn trimming_removes_exactly_the_outer_white_space(s: Seq<char>)
    ensures
        exists|before: Seq<char>, after: Seq<char>|
            {
                &&& s == #[trigger] (before + trimmed(s) + after)
                &&& forall|i: int| 0 <= i < before.len() ==> is_white_space(before[i])
                &&& forall|i: int| 0 <= i < after.len() ==> is_white_space(after[i])
            },
        trimmed(s).len() > 0 ==> !is_white_space(trimmed(s).first()) && !is_white_space(
            trimmed(s).last(),
        ),
{
    let before = lemma_trim_start(s);
    let after = lemma_trim_end(trim_start(s));
    assert(s == before + trimmed(s) + after);
}

proof fn lemma_trim_start(s: Seq<char>) -> (before: Seq<char>)
    ensures
        s == before + trim_start(s),
        forall|i: int| 0 <= i < before.len() ==> is_white_space(before[i]),
        trim_start(s).len() > 0 ==> !is_white_space(trim_start(s).first()),
    decreases s.len(),
{
    if s.len() > 0 && is_white_space(s.first()) {
        let rest = lemma_trim_start(s.drop_first());
        let before = seq![s.first()] + rest;
        assert(s == seq![s.first()] + s.drop_first());
        assert(before + trim_start(s) == seq![s.first()] + (rest + trim_start(s)));
        before
    } else {
        assert(s == Seq::<char>::empty() + s);
        Seq::empty()
    }
}

proof fn lemma_trim_end(s: Seq<char>) -> (after: Seq<char>)
    ensures
        s == trim_end(s) + after,
        forall|i: int| 0 <= i < after.len() ==> is_white_space(after[i]),
        trim_end(s).len() > 0 ==> !is_white_space(trim_end(s).last()) && trim_end(s).first()
            == s.first(),
    decreases s.len(),
{
    if s.len() > 0 && is_white_space(s.last()) {
        let rest = lemma_trim_end(s.drop_last());
        let after = rest.push(s.last());
        assert(s == s.drop_last().push(s.last()));
        assert(trim_end(s) + after == (trim_end(s) + rest).push(s.last()));
        after
    } else {
        assert(s == s + Seq::<char>::empty());
        Seq::empty()
    }
}

/// The white space: the controls from the tab to the carriage return, the space, and the spaces and
/// separators of Unicode. Letters, digits and signs are none of it.
pub proof fn white_space_is_what_unicode_calls_so(c: char)
    ensures
        is_white_space(c) <==> {
            ||| c == '\t'
            ||| c == '\n'
            ||| c == '\u{b}'
            ||| c == '\u{c}'
            ||| c == '\r'
            ||| c == ' '
            ||| c == '\u{85}'
            ||| c == '\u{a0}'
            ||| c == '\u{1680}'
            ||| c == '\u{2000}'
            ||| c == '\u{2001}'
            ||| c == '\u{2002}'
            ||| c == '\u{2003}'
            ||| c == '\u{2004}'
            ||| c == '\u{2005}'
            ||| c == '\u{2006}'
            ||| c == '\u{2007}'
            ||| c == '\u{2008}'
            ||| c == '\u{2009}'
            ||| c == '\u{200a}'
            ||| c == '\u{2028}'
            ||| c == '\u{2029}'
            ||| c == '\u{202f}'
            ||| c == '\u{205f}'
            ||| c == '\u{3000}'
        },
{
}

/// What stands between white space comes out of trimming as it is, however long it is and whatever
/// white space it holds within.
pub proof fn trimming_leaves_what_stands_between(
    before: Seq<char>,
    middle: Seq<char>,
    after: Seq<char>,
)
    requires
        forall|i: int| 0 <= i < before.len() ==> is_white_space(#[trigger] before[i]),
        forall|i: int| 0 <= i < after.len() ==> is_white_space(#[trigger] after[i]),
        middle.len() > 0 ==> !is_white_space(middle.first()) && !is_white_space(middle.last()),
    ensures
        trimmed(before + middle + after) == middle,
    decreases before.len() + after.len(),
{
    let s = before + middle + after;
    if before.len() > 0 {
        assert(s.drop_first() == before.drop_first() + middle + after);
        assert(s.first() == before[0]);
        trimming_leaves_what_stands_between(before.drop_first(), middle, after);
    } else if middle.len() == 0 {
        if after.len() > 0 {
            assert(s.drop_first() == before + middle + after.drop_first());
            assert(s.first() == after[0]);
            trimming_leaves_what_stands_between(before, middle, after.drop_first());
        } else {
            assert(s == middle);
        }
    } else {
        assert(s.first() == middle.first());
        lemma_trim_end_leaves(middle, after);
        assert(s == middle + after);
    }
}

proof fn lemma_trim_end_leaves(middle: Seq<char>, after: Seq<char>)
    requires
        middle.len() > 0,
        forall|i: int| 0 <= i < after.len() ==> is_white_space(#[trigger] after[i]),
        !is_white_space(middle.last()),
    ensures
        trim_end(middle + after) == middle,
    decreases after.len(),
{
    if after.len() > 0 {
        assert((middle + after).drop_last() == middle + after.drop_last());
        assert((middle + after).last() == after[after.len() - 1]);
        lemma_trim_end_leaves(middle, after.drop_last());
    } else {
        assert(middle + after == middle);
    }
}

/// A prefix is taken off exactly where the text is the prefix with the rest behind it.
pub proof fn a_prefix_and_the_rest_are_the_text(s: Seq<char>, prefix: Seq<char>, rest: Seq<char>)
    ensures
        after_prefix(s, prefix) == Some(rest) <==> s == prefix + rest,
{
    if s == prefix + rest {
        assert(s.skip(prefix.len() as int) == rest);
        assert(s.take(prefix.len() as int) == prefix);
    } else if prefix.is_prefix_of(s) {
        assert(s == prefix + s.skip(prefix.len() as int));
    }
}

/// A line holds the whole text, whatever its length, and then one line feed.
pub proof fn a_line_is_the_text_and_a_line_feed(s: Seq<char>)
    ensures
        line_of(s).len() == s.len() + 1,
        line_of(s).take(s.len() as int) == s,
        line_of(s).last() == '\n',
        line_of(s) == s + seq!['\n'],
{
}

} // verus!
