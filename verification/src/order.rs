//! Dice in the order of their ids.

use vstd::prelude::*;

verus! {

/// Whether every id is smaller than the ids after it.
pub open spec fn spec_ascends(ids: Seq<usize>) -> bool {
    forall|i: int, j: int| 0 <= i < j < ids.len() ==> ids[i] < ids[j]
}

/// Whether `ids` lists the members of the set from the smallest to the
/// largest, each once.
pub open spec fn spec_lists(ids: Seq<usize>, set: Set<usize>) -> bool {
    &&& spec_ascends(ids)
    &&& forall|id: usize| set.contains(id) <==> ids.contains(id)
}

/// The members of a finite set from the smallest to the largest.
pub open spec fn spec_ascending(set: Set<usize>) -> Seq<usize> {
    choose|ids: Seq<usize>| spec_lists(ids, set)
}

/// A set is listed in ascending order in one way only.
pub proof fn lemma_listing_is_unique(a: Seq<usize>, b: Seq<usize>, set: Set<usize>)
    requires
        spec_lists(a, set),
        spec_lists(b, set),
    ensures
        a == b,
    decreases a.len(),
{
    if a.len() == 0 {
        if b.len() > 0 {
            assert(b.contains(b[0]));
            assert(a.contains(b[0]));
        }
        assert(a =~= b);
    } else {
        assert(a.contains(a[0]));
        assert(b.contains(a[0]));
        assert(b.len() > 0);
        assert(b.contains(b[0]));
        assert(a.contains(b[0]));
        let i = choose|i: int| 0 <= i < b.len() && b[i] == a[0];
        let j = choose|j: int| 0 <= j < a.len() && a[j] == b[0];
        assert(a[0] == b[0]) by {
            if i > 0 {
                assert(b[0] < b[i]);
            }
            if j > 0 {
                assert(a[0] < a[j]);
            }
        }
        let rest = set.remove(a[0]);
        let at = a.drop_first();
        let bt = b.drop_first();
        assert(spec_lists(at, rest)) by {
            assert forall|id: usize| rest.contains(id) <==> at.contains(id) by {
                if rest.contains(id) {
                    let k = choose|k: int| 0 <= k < a.len() && a[k] == id;
                    assert(at[k - 1] == id);
                }
                if at.contains(id) {
                    let k = choose|k: int| 0 <= k < at.len() && at[k] == id;
                    assert(a[k + 1] == id);
                    assert(a[0] < a[k + 1]);
                    assert(a.contains(id));
                }
            }
            assert forall|i: int, j: int| 0 <= i < j < at.len() implies at[i] < at[j] by {
                assert(a[i + 1] < a[j + 1]);
            }
        }
        assert(spec_lists(bt, rest)) by {
            assert forall|id: usize| rest.contains(id) <==> bt.contains(id) by {
                if rest.contains(id) {
                    let k = choose|k: int| 0 <= k < b.len() && b[k] == id;
                    assert(bt[k - 1] == id);
                }
                if bt.contains(id) {
                    let k = choose|k: int| 0 <= k < bt.len() && bt[k] == id;
                    assert(b[k + 1] == id);
                    assert(b[0] < b[k + 1]);
                    assert(b.contains(id));
                }
            }
            assert forall|i: int, j: int| 0 <= i < j < bt.len() implies bt[i] < bt[j] by {
                assert(b[i + 1] < b[j + 1]);
            }
        }
        lemma_listing_is_unique(at, bt, rest);
        assert(a =~= seq![a[0]] + at);
        assert(b =~= seq![b[0]] + bt);
    }
}

/// Where the dice with the ids from 0 up to, not including, `count` have
/// reported and no others, they are listed in the order in which they
/// were thrown.
pub proof fn lemma_ascending_of_first_ids(set: Set<usize>, count: usize)
    requires
        forall|id: usize| set.contains(id) <==> id < count,
    ensures
        spec_ascending(set) == Seq::new(count as nat, |i: int| i as usize),
{
    let listed = Seq::new(count as nat, |i: int| i as usize);
    assert(spec_lists(listed, set)) by {
        assert forall|id: usize| set.contains(id) <==> listed.contains(id) by {
            if set.contains(id) {
                assert(listed[id as int] == id);
            }
        }
    }
    lemma_listing_is_unique(listed, spec_ascending(set), set);
}

/// The given ids, none of them twice, from the smallest to the largest.
pub fn ascending(ids: &Vec<usize>) -> (sorted: Vec<usize>)
    requires
        ids@.no_duplicates(),
    ensures
        spec_lists(sorted@, ids@.to_set()),
        sorted@.len() == ids@.len(),
{
    let mut sorted: Vec<usize> = Vec::new();
    let mut n: usize = 0;
    while n < ids.len()
        invariant
            n <= ids@.len(),
            ids@.no_duplicates(),
            sorted@.len() == n,
            spec_ascends(sorted@),
            forall|id: usize|
                sorted@.contains(id) <==> exists|k: int| 0 <= k < n && #[trigger] ids@[k] == id,
        decreases ids@.len() - n,
    {
        let id = ids[n];
        let mut at: usize = 0;
        while at < sorted.len() && sorted[at] < id
            invariant
                at <= sorted@.len(),
                forall|j: int| 0 <= j < at ==> sorted@[j] < id,
            decreases sorted@.len() - at,
        {
            at += 1;
        }
        let ghost before = sorted@;
        proof {
            if at < before.len() && before[at as int] == id {
                assert(before.contains(id));
            }
            assert(forall|j: int| at <= j < before.len() ==> id < before[j]) by {
                assert forall|j: int| at <= j < before.len() implies id < before[j] by {
                    if j > at {
                        assert(before[at as int] < before[j]);
                    }
                }
            }
        }
        sorted.insert(at, id);
        n += 1;
        proof {
            let after = sorted@;
            assert(after[at as int] == id);
            assert(forall|j: int| 0 <= j < at ==> after[j] == before[j]);
            assert(forall|j: int| at < j < after.len() ==> after[j] == before[j - 1]);
            assert forall|i: int, j: int| 0 <= i < j < after.len() implies after[i] < after[j] by {
                if i < at && j > at {
                    assert(before[i] < id);
                    assert(id < before[j - 1]);
                } else if i > at {
                    assert(before[i - 1] < before[j - 1]);
                }
            }
            assert forall|other: usize| after.contains(other) <==> exists|k: int|
                0 <= k < n && #[trigger] ids@[k] == other by {
                if after.contains(other) {
                    let j = choose|j: int| 0 <= j < after.len() && after[j] == other;
                    if j == at {
                        assert(ids@[n - 1] == other);
                    } else {
                        let was = if j < at {
                            j
                        } else {
                            j - 1
                        };
                        assert(before[was] == other);
                        assert(before.contains(other));
                        let k = choose|k: int| 0 <= k < n - 1 && #[trigger] ids@[k] == other;
                        assert(0 <= k < n && ids@[k] == other);
                    }
                }
                if exists|k: int| 0 <= k < n && #[trigger] ids@[k] == other {
                    let k = choose|k: int| 0 <= k < n && #[trigger] ids@[k] == other;
                    if k == n - 1 {
                        assert(after[at as int] == other);
                    } else {
                        assert(before.contains(other));
                        let j = choose|j: int| 0 <= j < before.len() && before[j] == other;
                        if j < at {
                            assert(after[j] == other);
                        } else {
                            assert(after[j + 1] == other);
                        }
                    }
                }
            }
        }
    }
    proof {
        assert forall|id: usize| ids@.to_set().contains(id) <==> sorted@.contains(id) by {
            if ids@.to_set().contains(id) {
                assert(ids@.contains(id));
                let k = choose|k: int| 0 <= k < ids@.len() && ids@[k] == id;
                assert(ids@[k] == id);
            }
            if sorted@.contains(id) {
                let k = choose|k: int| 0 <= k < n && #[trigger] ids@[k] == id;
                assert(ids@.contains(id));
            }
        }
    }
    sorted
}

} // verus!
