//! Small verified operations on text.
//!
//! Text is modelled as `Seq<char>`, the view of `str` and `String`.

use vstd::prelude::*;
use vstd::string::{StrSliceExecFns, StringExecFns};

verus! {

/// `parts` written one after another with `sep` between neighbours.
pub open spec fn joined(parts: Seq<Seq<char>>, sep: Seq<char>) -> Seq<char>
    decreases parts.len(),
{
    if parts.len() == 0 {
        Seq::empty()
    } else if parts.len() == 1 {
        parts[0]
    } else {
        joined(parts.drop_last(), sep) + sep + parts.last()
    }
}

/// The first position at or after `from` at which `s` holds `c`, or
/// `s.len()` where there is none.
pub open spec fn position_from(s: Seq<char>, c: char, from: int) -> int
    decreases s.len() - from,
{
    if from < 0 || from >= s.len() {
        s.len() as int
    } else if s[from] == c {
        from
    } else {
        position_from(s, c, from + 1)
    }
}

/// The first position at which `s` holds `c`, or `s.len()`.
pub open spec fn position(s: Seq<char>, c: char) -> int {
    position_from(s, c, 0)
}

/// Whether `pattern` stands in `s` at position `at`.
pub open spec fn stands_at(s: Seq<char>, pattern: Seq<char>, at: int) -> bool {
    0 <= at && at + pattern.len() <= s.len() && s.subrange(at, at + pattern.len()) == pattern
}

/// Whether `pattern` stands somewhere in `s`.
pub open spec fn holds_text(s: Seq<char>, pattern: Seq<char>) -> bool {
    exists|at: int| stands_at(s, pattern, at)
}

/// The parts of `s` from position `from` on that `sep` parts from one
/// another.
pub open spec fn split_from(s: Seq<char>, sep: char, from: int) -> Seq<Seq<char>>
    decreases s.len() - from,
{
    if from < 0 || from > s.len() {
        Seq::empty()
    } else {
        let at = position_from(s, sep, from);
        proof {
            lemma_position_from(s, sep, from);
        }
        if at >= s.len() {
            seq![s.subrange(from, s.len() as int)]
        } else {
            seq![s.subrange(from, at)] + split_from(s, sep, at + 1)
        }
    }
}

/// The parts of `s` that `sep` parts from one another: one more than
/// `sep` occurs, some of them empty where two `sep` are neighbours or one
/// stands at an end.
pub open spec fn split_on(s: Seq<char>, sep: char) -> Seq<Seq<char>> {
    split_from(s, sep, 0)
}

/// The test for holding a character.
pub open spec fn is_nonempty() -> spec_fn(Seq<char>) -> bool {
    |part: Seq<char>| part.len() > 0
}

/// What `position_from` finds: nothing before it, and `c` at it.
pub proof fn lemma_position_from(s: Seq<char>, c: char, from: int)
    requires
        0 <= from <= s.len(),
    ensures
        from <= position_from(s, c, from) <= s.len(),
        forall|i: int| from <= i < position_from(s, c, from) ==> s[i] != c,
        position_from(s, c, from) < s.len() ==> s[position_from(s, c, from)] == c,
    decreases s.len() - from,
{
    if from < s.len() && s[from] != c {
        lemma_position_from(s, c, from + 1);
    }
}

/// A position with `c` and nothing equal to `c` between `from` and it is
/// the one that `position_from` finds.
pub proof fn lemma_position_from_is(s: Seq<char>, c: char, from: int, at: int)
    requires
        0 <= from <= at <= s.len(),
        forall|i: int| from <= i < at ==> s[i] != c,
        at < s.len() ==> s[at] == c,
    ensures
        position_from(s, c, from) == at,
    decreases at - from,
{
    if from < at {
        lemma_position_from_is(s, c, from + 1, at);
    }
}

/// What `position_from` finds does not depend on what stands before
/// `from`: in a text after a prefix, it finds the same place.
pub proof fn lemma_position_from_after(pre: Seq<char>, s: Seq<char>, c: char, from: int)
    requires
        0 <= from <= s.len(),
    ensures
        position_from(pre + s, c, pre.len() + from) == pre.len() + position_from(s, c, from),
    decreases s.len() - from,
{
    let whole = pre + s;
    if from < s.len() {
        assert(whole[pre.len() + from] == s[from]);
        if s[from] != c {
            lemma_position_from_after(pre, s, c, from + 1);
        }
    }
}

/// What `position_from` finds within a first part does not depend on
/// what follows that part.
pub proof fn lemma_position_from_before(s: Seq<char>, post: Seq<char>, c: char, from: int)
    requires
        0 <= from <= s.len(),
        position_from(s, c, from) < s.len(),
    ensures
        position_from(s + post, c, from) == position_from(s, c, from),
    decreases s.len() - from,
{
    let whole = s + post;
    if from < s.len() {
        assert(whole[from] == s[from]);
        if s[from] != c {
            lemma_position_from_before(s, post, c, from + 1);
        }
    }
}

/// The parts of a text after a prefix are the parts of the text.
pub proof fn lemma_split_from_after(pre: Seq<char>, s: Seq<char>, sep: char, from: int)
    requires
        0 <= from <= s.len(),
    ensures
        split_from(pre + s, sep, pre.len() + from) == split_from(s, sep, from),
    decreases s.len() - from,
{
    let whole = pre + s;
    let at = position_from(s, sep, from);
    lemma_position_from(s, sep, from);
    lemma_position_from_after(pre, s, sep, from);
    if at >= s.len() {
        assert(whole.subrange(pre.len() + from, whole.len() as int) =~= s.subrange(
            from,
            s.len() as int,
        ));
    } else {
        assert(whole.subrange(pre.len() + from, pre.len() + at) =~= s.subrange(from, at));
        lemma_split_from_after(pre, s, sep, at + 1);
    }
}

/// The parts of two texts with a separator between them are the parts
/// of the first and then the parts of the second.
pub proof fn lemma_split_from_joint(a: Seq<char>, b: Seq<char>, sep: char, from: int)
    requires
        0 <= from <= a.len(),
    ensures
        split_from(a + seq![sep] + b, sep, from) == split_from(a, sep, from) + split_on(b, sep),
    decreases a.len() - from,
{
    let whole = a + seq![sep] + b;
    let at = position_from(a, sep, from);
    lemma_position_from(a, sep, from);
    if at >= a.len() {
        assert forall|i: int| from <= i < a.len() implies whole[i] != sep by {
            assert(whole[i] == a[i]);
        }
        assert(whole[a.len() as int] == sep);
        lemma_position_from_is(whole, sep, from, a.len() as int);
        assert(whole.subrange(from, a.len() as int) =~= a.subrange(from, a.len() as int));
        lemma_split_from_after(a + seq![sep], b, sep, 0);
    } else {
        lemma_position_from_before(a, seq![sep] + b, sep, from);
        assert(a + (seq![sep] + b) =~= whole);
        assert(whole.subrange(from, at) =~= a.subrange(from, at));
        lemma_split_from_joint(a, b, sep, at + 1);
        assert(seq![a.subrange(from, at)] + (split_from(a, sep, at + 1) + split_on(b, sep))
            =~= (seq![a.subrange(from, at)] + split_from(a, sep, at + 1)) + split_on(b, sep));
    }
}

/// A text without the separator is its own only part.
pub proof fn lemma_split_of_one_part(s: Seq<char>, sep: char)
    requires
        !s.contains(sep),
    ensures
        split_on(s, sep) == seq![s],
{
    lemma_position_from(s, sep, 0);
    let at = position_from(s, sep, 0);
    if at < s.len() {
        assert(s.contains(s[at]));
    }
    assert(s.subrange(0, s.len() as int) =~= s);
}

/// No part holds the separator.
pub proof fn lemma_parts_hold_no_separator(s: Seq<char>, sep: char, from: int)
    requires
        0 <= from <= s.len(),
    ensures
        forall|k: int|
            0 <= k < split_from(s, sep, from).len() ==> !(#[trigger] split_from(
                s,
                sep,
                from,
            )[k]).contains(sep),
    decreases s.len() - from,
{
    let at = position_from(s, sep, from);
    lemma_position_from(s, sep, from);
    let upto = if at >= s.len() {
        s.len() as int
    } else {
        at
    };
    let first = s.subrange(from, upto);
    assert(!first.contains(sep)) by {
        if first.contains(sep) {
            let i = choose|i: int| 0 <= i < first.len() && first[i] == sep;
            assert(s[from + i] == sep);
        }
    }
    if at < s.len() {
        lemma_parts_hold_no_separator(s, sep, at + 1);
        let rest = split_from(s, sep, at + 1);
        assert forall|k: int| 0 <= k < split_from(s, sep, from).len() implies !(
        #[trigger] split_from(s, sep, from)[k]).contains(sep) by {
            if k > 0 {
                assert(split_from(s, sep, from)[k] == rest[k - 1]);
            }
        }
    }
}

/// The characters of `s`, in order.
pub fn chars_of(s: &str) -> (v: Vec<char>)
    ensures
        v@ == s@,
{
    let mut v: Vec<char> = Vec::new();
    for c in it: s.chars()
        invariant
            it.seq() == s@,
            v@ == s@.take(it.index() as int),
    {
        v.push(c);
    }
    v
}

/// Whether two texts hold the same characters.
pub fn same_text(a: &str, b: &str) -> (same: bool)
    ensures
        same == (a@ == b@),
{
    let left = a.to_owned();
    let right = b.to_owned();
    left == right
}

/// The strings of `parts` with `sep` between neighbours.
pub fn join(parts: &Vec<String>, sep: &str) -> (text: String)
    ensures
        text@ == joined(parts.deep_view(), sep@),
{
    let ghost all = parts.deep_view();
    let mut text = String::new();
    let mut i: usize = 0;
    while i < parts.len()
        invariant
            i <= parts.len(),
            all == parts.deep_view(),
            text@ == joined(all.take(i as int), sep@),
        decreases parts.len() - i,
    {
        proof {
            let head = all.take(i as int + 1);
            assert(head.drop_last() == all.take(i as int));
            assert(head.last() == parts@[i as int]@);
            if i == 0 {
                assert(joined(head, sep@) == parts@[0]@);
                assert(Seq::<char>::empty() + parts@[0]@ == parts@[0]@);
            }
        }
        if i > 0 {
            text.append(sep);
        }
        text.append(parts[i].as_str());
        i = i + 1;
    }
    proof {
        assert(all.take(parts.len() as int) == all);
    }
    text
}

/// The first position at or after `from` at which `s` holds `c`, or the
/// length of `s` where there is none.
pub fn find_from(s: &Vec<char>, c: char, from: usize) -> (at: usize)
    requires
        from <= s.len(),
    ensures
        at == position_from(s@, c, from as int),
        from <= at <= s.len(),
{
    let mut at: usize = from;
    while at < s.len() && s[at] != c
        invariant
            from <= at <= s.len(),
            forall|i: int| from <= i < at ==> s@[i] != c,
        decreases s.len() - at,
    {
        at = at + 1;
    }
    proof {
        lemma_position_from_is(s@, c, from as int, at as int);
    }
    at
}

/// Whether `pattern` stands in `s` at position `at`.
pub fn matches_at(s: &Vec<char>, pattern: &Vec<char>, at: usize) -> (b: bool)
    requires
        at + pattern.len() <= s.len(),
    ensures
        b == stands_at(s@, pattern@, at as int),
{
    let mut j: usize = 0;
    while j < pattern.len()
        invariant
            j <= pattern.len(),
            at + pattern.len() <= s.len(),
            forall|k: int| 0 <= k < j ==> s@[at + k] == pattern@[k],
        decreases pattern.len() - j,
    {
        if s[at + j] != pattern[j] {
            proof {
                let part = s@.subrange(at as int, at + pattern.len());
                assert(part[j as int] != pattern@[j as int]);
            }
            return false;
        }
        j = j + 1;
    }
    proof {
        assert(s@.subrange(at as int, at + pattern.len()) =~= pattern@);
    }
    true
}

/// Whether `pattern` stands somewhere in `s`.
pub fn find_text(s: &Vec<char>, pattern: &Vec<char>) -> (found: bool)
    ensures
        found == holds_text(s@, pattern@),
{
    if pattern.len() > s.len() {
        return false;
    }
    let last: usize = s.len() - pattern.len();
    let mut at: usize = 0;
    loop
        invariant
            at <= last,
            last == s.len() - pattern.len(),
            forall|a: int| 0 <= a < at ==> !stands_at(s@, pattern@, a),
        decreases last - at,
    {
        if matches_at(s, pattern, at) {
            return true;
        }
        if at == last {
            return false;
        }
        at = at + 1;
    }
}

/// The parts of `s` that `sep` parts from one another.
pub fn split(s: &str, sep: char) -> (parts: Vec<String>)
    ensures
        parts.deep_view() == split_on(s@, sep),
{
    let chars = chars_of(s);
    let mut parts: Vec<String> = Vec::new();
    let mut from: usize = 0;
    loop
        invariant
            chars@ == s@,
            from <= chars.len(),
            parts.deep_view() + split_from(s@, sep, from as int) == split_on(s@, sep),
        decreases chars.len() - from,
    {
        let at = find_from(&chars, sep, from);
        let ghost before = parts.deep_view();
        let part = s.substring_char(from, at).to_owned();
        parts.push(part);
        proof {
            assert(parts.deep_view() =~= before.push(s@.subrange(from as int, at as int)));
        }
        if at >= chars.len() {
            proof {
                assert(before + seq![s@.subrange(from as int, at as int)] =~= before.push(
                    s@.subrange(from as int, at as int),
                ));
            }
            return parts;
        }
        proof {
            let head = seq![s@.subrange(from as int, at as int)];
            let tail = split_from(s@, sep, at + 1);
            assert(before.push(s@.subrange(from as int, at as int)) + tail =~= before + (head
                + tail));
        }
        from = at + 1;
    }
}

} // verus!
