//! Building a list item by item, where any item may fail.

use vstd::prelude::*;

verus! {

/// Applies `f` to the items of `s` in order. The result holds what `f` gave
/// for each item, or the error of the first item that `f` turned down.
pub open spec fn try_map<A, B, E>(s: Seq<A>, f: spec_fn(A) -> Result<B, E>) -> Result<Seq<B>, E>
    decreases s.len(),
{
    if s.len() == 0 {
        Ok(Seq::empty())
    } else {
        match try_map(s.drop_last(), f) {
            Err(e) => Err(e),
            Ok(done) => match f(s.last()) {
                Err(e) => Err(e),
                Ok(b) => Ok(done.push(b)),
            },
        }
    }
}

/// One more item after a prefix that went through.
pub proof fn lemma_try_map_step<A, B, E>(s: Seq<A>, f: spec_fn(A) -> Result<B, E>, i: int)
    requires
        0 <= i < s.len(),
        try_map(s.take(i), f) is Ok,
    ensures
        try_map(s.take(i + 1), f) == match f(s[i]) {
            Err(e) => Err::<Seq<B>, E>(e),
            Ok(b) => Ok::<Seq<B>, E>(try_map(s.take(i), f)->Ok_0.push(b)),
        },
{
    assert(s.take(i + 1).drop_last() =~= s.take(i));
    assert(s.take(i + 1).last() == s[i]);
}

/// An error in a prefix is the error of the whole list.
pub proof fn lemma_try_map_err<A, B, E>(s: Seq<A>, f: spec_fn(A) -> Result<B, E>, i: int)
    requires
        0 <= i <= s.len(),
        try_map(s.take(i), f) is Err,
    ensures
        try_map(s, f) == try_map(s.take(i), f),
    decreases s.len() - i,
{
    if i < s.len() {
        assert(s.take(i + 1).drop_last() =~= s.take(i));
        lemma_try_map_err(s, f, i + 1);
    } else {
        assert(s.take(i) =~= s);
    }
}

/// A list that went through has one result for each item, in order.
pub proof fn lemma_try_map_ok<A, B, E>(s: Seq<A>, f: spec_fn(A) -> Result<B, E>)
    requires
        try_map(s, f) is Ok,
    ensures
        try_map(s, f)->Ok_0.len() == s.len(),
        forall|k: int| 0 <= k < s.len() ==> f(#[trigger] s[k]) == Ok::<B, E>(try_map(s, f)->Ok_0[k]),
    decreases s.len(),
{
    if s.len() > 0 {
        let front = s.drop_last();
        lemma_try_map_ok(front, f);
        assert forall|k: int| 0 <= k < s.len() implies f(#[trigger] s[k]) == Ok::<B, E>(
            try_map(s, f)->Ok_0[k],
        ) by {
            if k < front.len() {
                assert(s[k] == front[k]);
            }
        }
    }
}

/// A list in which `f` turns an item down does not go through.
pub proof fn lemma_try_map_fails<A, B, E>(s: Seq<A>, f: spec_fn(A) -> Result<B, E>, k: int)
    requires
        0 <= k < s.len(),
        f(s[k]) is Err,
    ensures
        try_map(s, f) is Err,
{
    if try_map(s, f) is Ok {
        lemma_try_map_ok(s, f);
    }
}

/// A list in which `f` takes every item goes through.
pub proof fn lemma_try_map_all<A, B, E>(s: Seq<A>, f: spec_fn(A) -> Result<B, E>)
    requires
        forall|k: int| 0 <= k < s.len() ==> f(#[trigger] s[k]) is Ok,
    ensures
        try_map(s, f) is Ok,
    decreases s.len(),
{
    if s.len() > 0 {
        let front = s.drop_last();
        assert forall|k: int| 0 <= k < front.len() implies f(#[trigger] front[k]) is Ok by {
            assert(front[k] == s[k]);
        }
        lemma_try_map_all(front, f);
        assert(f(s[s.len() - 1]) is Ok);
    }
}

} // verus!
