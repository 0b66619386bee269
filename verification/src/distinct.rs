//! Lists of entries that are found by an identifier: whether an identifier
//! occurs twice, and where it first does.

use vstd::prelude::*;

verus! {

/// The identifiers of a list of entries, in the list's order.
pub open spec fn entry_ids<T>(entries: Seq<(String, T)>) -> Seq<Seq<char>> {
    entries.map_values(|entry: (String, T)| entry.0@)
}

/// Whether the identifier at `j` also stands at an earlier place.
pub open spec fn repeats_earlier(ids: Seq<Seq<char>>, j: int) -> bool {
    exists|i: int| 0 <= i < j && #[trigger] ids[i] == ids[j]
}

/// Whether `j` is the first place whose identifier stands at an earlier
/// place too.
pub open spec fn is_first_repeat(ids: Seq<Seq<char>>, j: int) -> bool {
    &&& 0 <= j < ids.len()
    &&& repeats_earlier(ids, j)
    &&& forall|k: int| 0 <= k < j ==> !#[trigger] repeats_earlier(ids, k)
}

/// The first place whose identifier stands at an earlier place too, if
/// there is one.
pub open spec fn first_repeat(ids: Seq<Seq<char>>) -> Option<int> {
    if exists|j: int| is_first_repeat(ids, j) {
        Some(choose|j: int| is_first_repeat(ids, j))
    } else {
        None
    }
}

/// Whether all identifiers differ.
pub open spec fn all_distinct(ids: Seq<Seq<char>>) -> bool {
    forall|i: int, j: int| 0 <= i < j < ids.len() ==> #[trigger] ids[i] != #[trigger] ids[j]
}

/// At most one place is the first repeat, and `first_repeat` names it.
pub proof fn lemma_first_repeat_is_unique(ids: Seq<Seq<char>>, j: int)
    requires
        is_first_repeat(ids, j),
    ensures
        first_repeat(ids) == Some(j),
{
    let chosen = choose|k: int| is_first_repeat(ids, k);
    assert(is_first_repeat(ids, chosen));
    if chosen < j {
        assert(!repeats_earlier(ids, chosen));
    }
    if j < chosen {
        assert(!repeats_earlier(ids, j));
    }
}

/// Where no place repeats an earlier one, there is no first repeat and all
/// identifiers differ.
pub proof fn lemma_no_repeat(ids: Seq<Seq<char>>)
    requires
        forall|j: int| 0 <= j < ids.len() ==> !#[trigger] repeats_earlier(ids, j),
    ensures
        first_repeat(ids) is None,
        all_distinct(ids),
{
    assert forall|i: int, j: int| 0 <= i < j < ids.len() implies #[trigger] ids[i]
        != #[trigger] ids[j] by {
        assert(!repeats_earlier(ids, j));
    }
}

/// Where two places hold one identifier, some place is the first repeat.
pub proof fn lemma_some_repeat(ids: Seq<Seq<char>>, i: int, j: int)
    requires
        0 <= i < j < ids.len(),
        ids[i] == ids[j],
    ensures
        first_repeat(ids) is Some,
    decreases j,
{
    assert(repeats_earlier(ids, j));
    if exists|k: int| 0 <= k < j && #[trigger] repeats_earlier(ids, k) {
        let k = choose|k: int| 0 <= k < j && #[trigger] repeats_earlier(ids, k);
        let h = choose|h: int| 0 <= h < k && #[trigger] ids[h] == ids[k];
        lemma_some_repeat(ids, h, k);
    } else {
        assert(is_first_repeat(ids, j));
    }
}

/// There is a first repeat exactly where two identifiers are the same.
pub proof fn lemma_distinct_iff_no_repeat(ids: Seq<Seq<char>>)
    ensures
        all_distinct(ids) <==> first_repeat(ids) is None,
{
    if all_distinct(ids) {
        assert forall|j: int| 0 <= j < ids.len() implies !#[trigger] repeats_earlier(ids, j) by {
            if repeats_earlier(ids, j) {
                let i = choose|i: int| 0 <= i < j && #[trigger] ids[i] == ids[j];
                assert(ids[i] != ids[j]);
            }
        }
        lemma_no_repeat(ids);
    } else {
        let (i, j) = choose|i: int, j: int|
            0 <= i < j < ids.len() && #[trigger] ids[i] == #[trigger] ids[j];
        lemma_some_repeat(ids, i, j);
    }
}

/// The first entry whose identifier an earlier entry has too: `None`
/// exactly where all identifiers differ.
pub fn first_repeated_id<T>(entries: &Vec<(String, T)>) -> (found: Option<usize>)
    ensures
        match found {
            Some(index) => first_repeat(entry_ids(entries@)) == Some(index as int),
            None => first_repeat(entry_ids(entries@)) is None,
        },
        found is None <==> all_distinct(entry_ids(entries@)),
{
    let ghost ids = entry_ids(entries@);
    proof {
        lemma_distinct_iff_no_repeat(ids);
    }
    let mut j: usize = 0;
    while j < entries.len()
        invariant
            j <= entries.len(),
            ids == entry_ids(entries@),
            forall|k: int| 0 <= k < j ==> !#[trigger] repeats_earlier(ids, k),
        decreases entries.len() - j,
    {
        let mut i: usize = 0;
        while i < j
            invariant
                i <= j < entries.len(),
                ids == entry_ids(entries@),
                forall|k: int| 0 <= k < j ==> !#[trigger] repeats_earlier(ids, k),
                forall|k: int| 0 <= k < i ==> #[trigger] ids[k] != ids[j as int],
            decreases j - i,
        {
            if entries[i].0 == entries[j].0 {
                proof {
                    assert(ids[i as int] == ids[j as int]);
                    assert(repeats_earlier(ids, j as int));
                    lemma_first_repeat_is_unique(ids, j as int);
                }
                return Some(j);
            }
            i += 1;
        }
        j += 1;
    }
    proof {
        lemma_no_repeat(ids);
    }
    None
}

} // verus!
