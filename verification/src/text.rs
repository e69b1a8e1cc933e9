//! Character-level text handling: whitespace trimming, prefix tests and field
//! search over a string taken as a sequence of characters.

use vstd::prelude::*;
use vstd::std_specs::iter::IteratorSpec;
use vstd::string::*;

verus! {

/// Whether a character has the Unicode `White_Space` property.
pub open spec fn is_space(c: char) -> bool {
    let n = c as u32;
    ||| 0x09 <= n <= 0x0D
    ||| n == 0x20
    ||| n == 0x85
    ||| n == 0xA0
    ||| n == 0x1680
    ||| 0x2000 <= n <= 0x200A
    ||| n == 0x2028
    ||| n == 0x2029
    ||| n == 0x202F
    ||| n == 0x205F
    ||| n == 0x3000
}

/// Number of whitespace characters at the front of `s`.
pub open spec fn leading_spaces(s: Seq<char>) -> nat
    decreases s.len(),
{
    if s.len() > 0 && is_space(s[0]) {
        1 + leading_spaces(s.drop_first())
    } else {
        0
    }
}

/// Number of whitespace characters at the back of `s`.
pub open spec fn trailing_spaces(s: Seq<char>) -> nat
    decreases s.len(),
{
    if s.len() > 0 && is_space(s.last()) {
        1 + trailing_spaces(s.drop_last())
    } else {
        0
    }
}

/// `s` without its leading whitespace.
pub open spec fn trimmed_start(s: Seq<char>) -> Seq<char> {
    s.skip(leading_spaces(s) as int)
}

/// `s` without its leading and trailing whitespace.
pub open spec fn trimmed(s: Seq<char>) -> Seq<char> {
    let rest = trimmed_start(s);
    rest.take(rest.len() - trailing_spaces(rest))
}

/// Whether `s` begins with `prefix`.
pub open spec fn has_prefix(s: Seq<char>, prefix: Seq<char>) -> bool {
    prefix.len() <= s.len() && s.take(prefix.len() as int) == prefix
}

/// Index of the first occurrence of `c` in `s` at or after `from`, or the
/// length of `s` if there is none.
pub open spec fn find_from(s: Seq<char>, c: char, from: int) -> int
    decreases s.len() - from,
{
    if from < 0 || from >= s.len() {
        s.len() as int
    } else if s[from] == c {
        from
    } else {
        find_from(s, c, from + 1)
    }
}

/// A run of `n` whitespace characters followed by a character that is none,
/// or by the end, is exactly the leading whitespace.
pub proof fn lemma_leading_spaces_is(s: Seq<char>, n: int)
    requires
        0 <= n <= s.len(),
        forall|i: int| 0 <= i < n ==> is_space(#[trigger] s[i]),
        n < s.len() ==> !is_space(s[n]),
    ensures
        leading_spaces(s) == n,
    decreases s.len(),
{
    if n > 0 {
        let rest = s.drop_first();
        assert(is_space(s[0]));
        assert forall|i: int| 0 <= i < n - 1 implies is_space(#[trigger] rest[i]) by {
            assert(rest[i] == s[i + 1]);
        }
        lemma_leading_spaces_is(rest, n - 1);
    }
}

/// A run of `n` whitespace characters at the back, preceded by a character
/// that is none or by the start, is exactly the trailing whitespace.
pub proof fn lemma_trailing_spaces_is(s: Seq<char>, n: int)
    requires
        0 <= n <= s.len(),
        forall|i: int| s.len() - n <= i < s.len() ==> is_space(#[trigger] s[i]),
        n < s.len() ==> !is_space(s[s.len() - n - 1]),
    ensures
        trailing_spaces(s) == n,
    decreases s.len(),
{
    if n > 0 {
        let rest = s.drop_last();
        assert(is_space(s[s.len() - 1]));
        assert forall|i: int| rest.len() - (n - 1) <= i < rest.len() implies is_space(
            #[trigger] rest[i],
        ) by {
            assert(rest[i] == s[i]);
        }
        lemma_trailing_spaces_is(rest, n - 1);
    }
}

/// Tests a character for the Unicode `White_Space` property.
pub fn is_space_char(c: char) -> (r: bool)
    ensures
        r == is_space(c),
{
    let n: u32 = c as u32;
    (0x09 <= n && n <= 0x0D) || n == 0x20 || n == 0x85 || n == 0xA0 || n == 0x1680 || (0x2000 <= n
        && n <= 0x200A) || n == 0x2028 || n == 0x2029 || n == 0x202F || n == 0x205F || n
        == 0x3000
}

/// The characters of a string, in order.
pub fn chars_of(text: &str) -> (chars: Vec<char>)
    ensures
        chars@ == text@,
{
    broadcast use {axiom_spec_iter, next_postcondition};

    let mut rest = text.chars();
    let mut chars: Vec<char> = Vec::new();
    loop
        invariant
            rest.obeys_prophetic_iter_laws(),
            chars@ + rest.remaining() == text@,
        decreases text@.len() - chars@.len(),
    {
        let ghost before = rest.remaining();
        match rest.next() {
            Some(c) => {
                chars.push(c);
                assert(chars@ + rest.remaining() =~= text@) by {
                    assert(before =~= seq![before[0]] + before.drop_first());
                }
            },
            None => {
                assert(chars@ =~= chars@ + before);
                return chars;
            },
        }
    }
}

/// A stretch without `c` that ends at an occurrence of `c`, or at the end, is
/// where the search for `c` stops.
pub proof fn lemma_find_from_is(s: Seq<char>, c: char, from: int, n: int)
    requires
        0 <= from <= n <= s.len(),
        forall|i: int| from <= i < n ==> #[trigger] s[i] != c,
        n < s.len() ==> s[n] == c,
    ensures
        find_from(s, c, from) == n,
    decreases n - from,
{
    if from < n {
        lemma_find_from_is(s, c, from + 1, n);
    }
}

/// Bounds of `chars[from..to]` once its leading and trailing whitespace is left out.
pub fn trim_bounds(chars: &Vec<char>, from: usize, to: usize) -> (bounds: (usize, usize))
    requires
        from <= to <= chars.len(),
    ensures
        from <= bounds.0 <= bounds.1 <= to,
        chars@.subrange(bounds.0 as int, bounds.1 as int) == trimmed(
            chars@.subrange(from as int, to as int),
        ),
{
    let ghost part = chars@.subrange(from as int, to as int);
    let mut start: usize = from;
    while start < to && is_space_char(chars[start])
        invariant
            from <= start <= to <= chars.len(),
            part == chars@.subrange(from as int, to as int),
            forall|i: int| 0 <= i < start - from ==> is_space(#[trigger] part[i]),
        decreases to - start,
    {
        start += 1;
    }
    proof {
        lemma_leading_spaces_is(part, start - from);
    }
    let ghost rest = trimmed_start(part);
    assert(rest =~= chars@.subrange(start as int, to as int));
    let mut end: usize = to;
    while end > start && is_space_char(chars[end - 1])
        invariant
            start <= end <= to <= chars.len(),
            rest == chars@.subrange(start as int, to as int),
            forall|i: int| end - start <= i < rest.len() ==> is_space(#[trigger] rest[i]),
        decreases end - start,
    {
        end -= 1;
    }
    proof {
        lemma_trailing_spaces_is(rest, to - end);
        assert(chars@.subrange(start as int, end as int) =~= rest.take(
            rest.len() - trailing_spaces(rest),
        ));
    }
    (start, end)
}

/// Whether `chars[from..to]` begins with `prefix`.
pub fn starts_with_at(chars: &Vec<char>, from: usize, to: usize, prefix: &Vec<char>) -> (r: bool)
    requires
        from <= to <= chars.len(),
    ensures
        r == has_prefix(chars@.subrange(from as int, to as int), prefix@),
{
    let ghost part = chars@.subrange(from as int, to as int);
    if prefix.len() > to - from {
        return false;
    }
    let mut i: usize = 0;
    while i < prefix.len()
        invariant
            from <= to <= chars.len(),
            i <= prefix.len() <= to - from,
            part == chars@.subrange(from as int, to as int),
            forall|j: int| 0 <= j < i ==> #[trigger] part[j] == prefix@[j],
        decreases prefix.len() - i,
    {
        if chars[from + i] != prefix[i] {
            assert(part.take(prefix.len() as int)[i as int] != prefix@[i as int]);
            return false;
        }
        i += 1;
    }
    assert(part.take(prefix.len() as int) =~= prefix@);
    true
}

/// Position in `chars[from..to]` of the first `c`, as an index into `chars`;
/// `to` if there is none.
pub fn find_char(chars: &Vec<char>, c: char, from: usize, to: usize) -> (at: usize)
    requires
        from <= to <= chars.len(),
    ensures
        from <= at <= to,
        at - from == find_from(chars@.subrange(from as int, to as int), c, 0),
{
    let ghost part = chars@.subrange(from as int, to as int);
    let mut at: usize = from;
    while at < to && chars[at] != c
        invariant
            from <= at <= to <= chars.len(),
            part == chars@.subrange(from as int, to as int),
            forall|i: int| 0 <= i < at - from ==> #[trigger] part[i] != c,
        decreases to - at,
    {
        at += 1;
    }
    proof {
        lemma_find_from_is(part, c, 0, at - from);
    }
    at
}

} // verus!
