//! Helpers that take results and options to the mathematical values that
//! the contracts of this library speak of.

use vstd::prelude::*;

verus! {

/// A result, with what it holds taken to its mathematical value.
pub open spec fn result_view<T: DeepView, E: DeepView>(r: Result<T, E>) -> Result<T::V, E::V> {
    match r {
        Ok(value) => Ok(value.deep_view()),
        Err(error) => Err(error.deep_view()),
    }
}

/// An optional text as a mathematical value.
pub open spec fn option_text(s: Option<String>) -> Option<Seq<char>> {
    match s {
        Some(text) => Some(text@),
        None => None,
    }
}

/// An optional borrowed text as a mathematical value.
pub open spec fn option_str(s: Option<&str>) -> Option<Seq<char>> {
    match s {
        Some(text) => Some(text@),
        None => None,
    }
}

/// The position of the first item of `s` that meets `test`, or the length
/// of `s` where none does.
pub open spec fn first_where<T>(s: Seq<T>, test: spec_fn(T) -> bool) -> int
    decreases s.len(),
{
    if s.len() == 0 {
        0
    } else if test(s[0]) {
        0
    } else {
        1 + first_where(s.drop_first(), test)
    }
}

/// The first item of `s` that meets `test`, where there is one.
pub open spec fn find_first<T>(s: Seq<T>, test: spec_fn(T) -> bool) -> Option<T> {
    if first_where(s, test) < s.len() {
        Some(s[first_where(s, test)])
    } else {
        None
    }
}

/// What `first_where` finds: no item before it meets the test, and the
/// item at it, if any, does.
pub proof fn lemma_first_where<T>(s: Seq<T>, test: spec_fn(T) -> bool)
    ensures
        0 <= first_where(s, test) <= s.len(),
        forall|i: int| 0 <= i < first_where(s, test) ==> !test(#[trigger] s[i]),
        first_where(s, test) < s.len() ==> test(s[first_where(s, test)]),
    decreases s.len(),
{
    if s.len() > 0 && !test(s[0]) {
        let rest = s.drop_first();
        lemma_first_where(rest, test);
        assert forall|i: int| 0 <= i < first_where(s, test) implies !test(#[trigger] s[i]) by {
            if i > 0 {
                assert(s[i] == rest[i - 1]);
            }
        }
        if first_where(s, test) < s.len() {
            assert(s[first_where(s, test)] == rest[first_where(rest, test)]);
        }
    }
}

/// A position whose item meets the test, after items that do not, is the
/// one that `first_where` finds; so is the length where no item does.
pub proof fn lemma_first_where_is<T>(s: Seq<T>, test: spec_fn(T) -> bool, at: int)
    requires
        0 <= at <= s.len(),
        forall|i: int| 0 <= i < at ==> !test(#[trigger] s[i]),
        at < s.len() ==> test(s[at]),
    ensures
        first_where(s, test) == at,
    decreases s.len(),
{
    if s.len() > 0 && at > 0 {
        let rest = s.drop_first();
        assert(!test(s[0]));
        assert forall|i: int| 0 <= i < at - 1 implies !test(#[trigger] rest[i]) by {
            assert(rest[i] == s[i + 1]);
        }
        if at < s.len() {
            assert(rest[at - 1] == s[at]);
        }
        lemma_first_where_is(rest, test, at - 1);
    }
}

/// Of one item, a filter keeps the item or nothing.
pub proof fn lemma_filter_one<T>(item: T, test: spec_fn(T) -> bool)
    ensures
        seq![item].filter(test) == if test(item) {
            seq![item]
        } else {
            Seq::<T>::empty()
        },
{
    reveal(Seq::filter);
    let one = seq![item];
    assert(one.drop_last() =~= Seq::<T>::empty());
    assert(one.drop_last().filter(test) =~= Seq::<T>::empty());
    if test(item) {
        assert(Seq::<T>::empty().push(item) =~= one);
    }
}

} // verus!
