//! The first of a list that is as wanted.

use vstd::prelude::*;

verus! {

/// The first of the list that is as wanted.
pub open spec fn first<A>(list: Seq<A>, wanted: spec_fn(A) -> bool) -> Option<A>
    decreases list.len(),
{
    if list.len() == 0 {
        None
    } else if wanted(list[0]) {
        Some(list[0])
    } else {
        first(list.drop_first(), wanted)
    }
}

/// Where none before the `n`th is as wanted, the first is the `n`th where that one
/// is; and there is none where the list ends there.
pub proof fn lemma_first<A>(list: Seq<A>, wanted: spec_fn(A) -> bool, n: int)
    requires
        0 <= n <= list.len(),
        forall|k: int| 0 <= k < n ==> !wanted(#[trigger] list[k]),
        n < list.len() ==> wanted(list[n]),
    ensures
        first(list, wanted) == (if n < list.len() {
            Some(list[n])
        } else {
            None
        }),
    decreases n,
{
    if n > 0 {
        let rest = list.drop_first();
        assert forall|k: int| 0 <= k < n - 1 implies !wanted(#[trigger] rest[k]) by {
            assert(!wanted(list[k + 1]));
        }
        assert(!wanted(list[0]));
        lemma_first(rest, wanted, n - 1);
    }
}

/// The first is as wanted and none before it is; there is none exactly where none
/// of the list is as wanted.
pub proof fn lemma_first_found<A>(list: Seq<A>, wanted: spec_fn(A) -> bool)
    ensures
        first(list, wanted) matches Some(x) ==> wanted(x) && exists|i: int|
            0 <= i < list.len() && #[trigger] list[i] == x && forall|j: int|
                0 <= j < i ==> !wanted(#[trigger] list[j]),
        first(list, wanted) is None ==> forall|j: int|
            0 <= j < list.len() ==> !wanted(#[trigger] list[j]),
    decreases list.len(),
{
    if list.len() > 0 {
        if wanted(list[0]) {
            assert(list[0] == first(list, wanted)->0);
        } else {
            let rest = list.drop_first();
            lemma_first_found(rest, wanted);
            match first(list, wanted) {
                Some(x) => {
                    let i = choose|i: int|
                        0 <= i < rest.len() && #[trigger] rest[i] == x && forall|j: int|
                            0 <= j < i ==> !wanted(#[trigger] rest[j]);
                    assert(list[i + 1] == x);
                    assert forall|j: int| 0 <= j < i + 1 implies !wanted(#[trigger] list[j]) by {
                        if j > 0 {
                            assert(rest[j - 1] == list[j]);
                        }
                    }
                },
                None => {
                    assert forall|j: int| 0 <= j < list.len() implies !wanted(
                        #[trigger] list[j],
                    ) by {
                        if j > 0 {
                            assert(rest[j - 1] == list[j]);
                        }
                    }
                },
            }
        }
    }
}

} // verus!
