//! The first refusal in a row of checks.
use vstd::prelude::*;

verus! {

/// The first entry that is there.
pub open spec fn first_some<E>(entries: Seq<Option<E>>) -> Option<E>
    decreases entries.len(),
{
    if entries.len() == 0 {
        None
    } else {
        match first_some(entries.drop_last()) {
            Some(found) => Some(found),
            None => entries.last(),
        }
    }
}

/// Where nothing stands before an entry that is there, it is the first.
pub proof fn lemma_first_some_at<E>(entries: Seq<Option<E>>, at: int)
    requires
        0 <= at < entries.len(),
        entries[at] is Some,
        forall|i: int| 0 <= i < at ==> (#[trigger] entries[i]) is None,
    ensures
        first_some(entries) == entries[at],
    decreases entries.len(),
{
    if at < entries.len() - 1 {
        lemma_first_some_at(entries.drop_last(), at);
    } else {
        lemma_first_some_none(entries.drop_last());
    }
}

/// Where no entry is there, there is no first.
pub proof fn lemma_first_some_none<E>(entries: Seq<Option<E>>)
    requires
        forall|i: int| 0 <= i < entries.len() ==> (#[trigger] entries[i]) is None,
    ensures
        first_some(entries) is None,
    decreases entries.len(),
{
    if entries.len() > 0 {
        lemma_first_some_none(entries.drop_last());
    }
}

/// Where there is no first, no entry is there.
pub proof fn lemma_first_some_all<E>(entries: Seq<Option<E>>)
    requires
        first_some(entries) is None,
    ensures
        forall|i: int| 0 <= i < entries.len() ==> (#[trigger] entries[i]) is None,
    decreases entries.len(),
{
    if entries.len() > 0 {
        lemma_first_some_all(entries.drop_last());
        assert forall|i: int| 0 <= i < entries.len() implies (#[trigger] entries[i]) is None by {
            if i < entries.len() - 1 {
                assert(entries.drop_last()[i] is None);
            }
        }
    }
}

} // verus!
