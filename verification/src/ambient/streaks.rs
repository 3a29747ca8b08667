//! How often in a row the projection of an agent had to be recovered.
use crate::text::str_equal;
use vstd::prelude::*;
use vstd::string::*;

verus! {

/// The recoveries in a row after which recovering is not the repair.
pub const MAX_CONSECUTIVE_PROJECTION_RECOVERIES: u32 = 3;

/// The recoveries in a row of each agent.
#[derive(Debug)]
pub struct ProjectionRecoveryStreaks {
    pub entries: Vec<(String, u32)>,
}

/// The recoveries in a row of one agent, none where it has no entry.
pub open spec fn streak_in(entries: Seq<(String, u32)>, spawn_id: Seq<char>) -> u32
    decreases entries.len(),
{
    if entries.len() == 0 {
        0
    } else if entries.last().0@ == spawn_id {
        entries.last().1
    } else {
        streak_in(entries.drop_last(), spawn_id)
    }
}

/// Whether no agent has two entries.
pub open spec fn distinct_agents(entries: Seq<(String, u32)>) -> bool {
    forall|i: int, j: int|
        0 <= i < j < entries.len() ==> (#[trigger] entries[i]).0@ != (#[trigger] entries[j]).0@
}

proof fn lemma_streak_at(entries: Seq<(String, u32)>, at: int)
    requires
        distinct_agents(entries),
        0 <= at < entries.len(),
    ensures
        streak_in(entries, entries[at].0@) == entries[at].1,
    decreases entries.len(),
{
    if at < entries.len() - 1 {
        assert(entries[at].0@ != entries[entries.len() - 1].0@);
        assert(entries.drop_last()[at] == entries[at]);
        assert forall|i: int, j: int| 0 <= i < j < entries.len() - 1 implies (
        #[trigger] entries.drop_last()[i]).0@ != (#[trigger] entries.drop_last()[j]).0@ by {
            assert(entries[i].0@ != entries[j].0@);
        }
        lemma_streak_at(entries.drop_last(), at);
    }
}

proof fn lemma_streak_absent(entries: Seq<(String, u32)>, spawn_id: Seq<char>)
    requires
        forall|i: int| 0 <= i < entries.len() ==> (#[trigger] entries[i]).0@ != spawn_id,
    ensures
        streak_in(entries, spawn_id) == 0,
    decreases entries.len(),
{
    if entries.len() > 0 {
        lemma_streak_absent(entries.drop_last(), spawn_id);
    }
}

proof fn lemma_update_keeps_others(entries: Seq<(String, u32)>, at: int, entry: (String, u32))
    requires
        0 <= at < entries.len(),
        entry.0@ == entries[at].0@,
    ensures
        forall|other: Seq<char>|
            other != entries[at].0@ ==> #[trigger] streak_in(entries.update(at, entry), other)
                == streak_in(entries, other),
    decreases entries.len(),
{
    assert forall|other: Seq<char>| other != entries[at].0@ implies #[trigger] streak_in(
        entries.update(at, entry),
        other,
    ) == streak_in(entries, other) by {
        let updated = entries.update(at, entry);
        if at == entries.len() - 1 {
            assert(updated.drop_last() =~= entries.drop_last());
        } else {
            assert(updated.drop_last() =~= entries.drop_last().update(at, entry));
            lemma_update_keeps_others(entries.drop_last(), at, entry);
            assert(entries.drop_last()[at] == entries[at]);
            assert(streak_in(entries.drop_last().update(at, entry), other) == streak_in(
                entries.drop_last(),
                other,
            ));
            assert(updated.last() == entries.last());
        }
    }
}

proof fn lemma_remove_keeps_others(entries: Seq<(String, u32)>, at: int)
    requires
        0 <= at < entries.len(),
    ensures
        forall|other: Seq<char>|
            other != entries[at].0@ ==> #[trigger] streak_in(entries.remove(at), other)
                == streak_in(entries, other),
    decreases entries.len(),
{
    assert forall|other: Seq<char>| other != entries[at].0@ implies #[trigger] streak_in(
        entries.remove(at),
        other,
    ) == streak_in(entries, other) by {
        let removed = entries.remove(at);
        if at == entries.len() - 1 {
            assert(removed =~= entries.drop_last());
        } else {
            assert(removed.drop_last() =~= entries.drop_last().remove(at));
            lemma_remove_keeps_others(entries.drop_last(), at);
            assert(entries.drop_last()[at] == entries[at]);
            assert(streak_in(entries.drop_last().remove(at), other) == streak_in(
                entries.drop_last(),
                other,
            ));
            assert(removed.last() == entries.last());
        }
    }
}

impl ProjectionRecoveryStreaks {
    /// No agent has two entries.
    pub open spec fn wf(self) -> bool {
        distinct_agents(self.entries@)
    }

    /// The recoveries in a row of an agent.
    pub open spec fn streak(self, spawn_id: Seq<char>) -> u32 {
        streak_in(self.entries@, spawn_id)
    }

    /// No recoveries.
    pub fn new() -> (streaks: Self)
        ensures
            streaks.wf(),
            forall|spawn_id: Seq<char>| #[trigger] streaks.streak(spawn_id) == 0,
    {
        ProjectionRecoveryStreaks { entries: Vec::new() }
    }

    fn find(&self, spawn_id: &str) -> (found: Option<usize>)
        ensures
            found matches Some(at) ==> at < self.entries@.len() && self.entries@[at as int].0@
                == spawn_id@,
            found is None ==> forall|i: int|
                0 <= i < self.entries@.len() ==> (#[trigger] self.entries@[i]).0@ != spawn_id@,
    {
        let mut index: usize = 0;
        while index < self.entries.len()
            invariant
                index <= self.entries@.len(),
                forall|i: int| 0 <= i < index ==> (#[trigger] self.entries@[i]).0@ != spawn_id@,
            decreases self.entries@.len() - index,
        {
            if str_equal(self.entries[index].0.as_str(), spawn_id) {
                return Some(index);
            }
            index = index + 1;
        }
        None
    }

    /// The recoveries in a row of an agent.
    pub fn consecutive_projection_recoveries(&self, spawn_id: &str) -> (streak: u32)
        requires
            self.wf(),
        ensures
            streak == self.streak(spawn_id@),
    {
        match self.find(spawn_id) {
            Some(at) => {
                proof {
                    lemma_streak_at(self.entries@, at as int);
                }
                self.entries[at].1
            },
            None => {
                proof {
                    lemma_streak_absent(self.entries@, spawn_id@);
                }
                0
            },
        }
    }

    /// Counts one more recovery of an agent.
    pub fn record_projection_recovery(&mut self, spawn_id: &str) -> (streak: u32)
        requires
            old(self).wf(),
        ensures
            final(self).wf(),
            streak == (if old(self).streak(spawn_id@) == u32::MAX {
                u32::MAX as int
            } else {
                old(self).streak(spawn_id@) + 1
            }),
            final(self).streak(spawn_id@) == streak,
            forall|other: Seq<char>|
                other != spawn_id@ ==> #[trigger] final(self).streak(other) == old(self).streak(
                    other,
                ),
    {
        let before: Ghost<Seq<(String, u32)>> = Ghost(self.entries@);
        match self.find(spawn_id) {
            Some(at) => {
                proof {
                    lemma_streak_at(self.entries@, at as int);
                }
                let old_streak: u32 = self.entries[at].1;
                let streak: u32 = if old_streak == u32::MAX {
                    u32::MAX
                } else {
                    old_streak + 1
                };
                let entry = (self.entries[at].0.clone(), streak);
                self.entries.set(at, entry);
                proof {
                    assert(self.entries@ =~= before@.update(at as int, entry));
                    assert forall|i: int, j: int| 0 <= i < j < self.entries@.len() implies (
                    #[trigger] self.entries@[i]).0@ != (#[trigger] self.entries@[j]).0@ by {
                        assert(before@[i].0@ != before@[j].0@);
                    }
                    lemma_update_keeps_others(before@, at as int, entry);
                    lemma_streak_at(self.entries@, at as int);
                }
                streak
            },
            None => {
                proof {
                    lemma_streak_absent(self.entries@, spawn_id@);
                }
                let entry = (spawn_id.to_owned(), 1u32);
                self.entries.push(entry);
                proof {
                    assert(self.entries@.drop_last() =~= before@);
                    assert forall|i: int, j: int| 0 <= i < j < self.entries@.len() implies (
                    #[trigger] self.entries@[i]).0@ != (#[trigger] self.entries@[j]).0@ by {
                        assert(before@[i].0@ != spawn_id@);
                        if j < before@.len() {
                            assert(before@[i].0@ != before@[j].0@);
                        }
                    }
                }
                1
            },
        }
    }

    /// Forgets the recoveries of an agent.
    pub fn clear_projection_recovery_streak(&mut self, spawn_id: &str)
        requires
            old(self).wf(),
        ensures
            final(self).wf(),
            final(self).streak(spawn_id@) == 0,
            forall|other: Seq<char>|
                other != spawn_id@ ==> #[trigger] final(self).streak(other) == old(self).streak(
                    other,
                ),
    {
        let before: Ghost<Seq<(String, u32)>> = Ghost(self.entries@);
        if let Some(at) = self.find(spawn_id) {
            let _ = self.entries.remove(at);
            proof {
                assert(self.entries@ =~= before@.remove(at as int));
                assert forall|i: int, j: int| 0 <= i < j < self.entries@.len() implies (
                #[trigger] self.entries@[i]).0@ != (#[trigger] self.entries@[j]).0@ by {
                    let p = if i < at {
                        i
                    } else {
                        i + 1
                    };
                    let q = if j < at {
                        j
                    } else {
                        j + 1
                    };
                    assert(before@[p].0@ != before@[q].0@);
                }
                lemma_remove_keeps_others(before@, at as int);
                assert forall|i: int| 0 <= i < self.entries@.len() implies (
                #[trigger] self.entries@[i]).0@ != spawn_id@ by {
                    if i < at {
                        assert(before@[i].0@ != before@[at as int].0@);
                    } else {
                        assert(before@[at as int].0@ != before@[i + 1].0@);
                    }
                }
            }
        }
        proof {
            lemma_streak_absent(self.entries@, spawn_id@);
        }
    }
}

} // verus!
