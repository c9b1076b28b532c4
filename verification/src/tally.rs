//! Counting by name.
//!
//! A tally holds one count for each name it has seen, in the order in which
//! the names were first seen. No name occurs twice. A count that has reached
//! the largest number it can hold stays there.

use vstd::prelude::*;

verus! {

/// The names of the entries, in order.
pub open spec fn names_of(entries: Seq<(Seq<char>, u64)>) -> Seq<Seq<char>> {
    Seq::new(entries.len(), |i: int| entries[i].0)
}

/// No name occurs twice among the entries.
pub open spec fn distinct_names(entries: Seq<(Seq<char>, u64)>) -> bool {
    forall|i: int, j: int|
        0 <= i < j < entries.len() ==> (#[trigger] entries[i]).0 != (#[trigger] entries[j]).0
}

/// Whether an entry has the name.
pub open spec fn has_name(entries: Seq<(Seq<char>, u64)>, name: Seq<char>) -> bool {
    exists|i: int| 0 <= i < entries.len() && (#[trigger] entries[i]).0 == name
}

/// The count under a name, and 0 where no entry has the name.
pub open spec fn count_of(entries: Seq<(Seq<char>, u64)>, name: Seq<char>) -> u64
    decreases entries.len(),
{
    if entries.len() == 0 {
        0
    } else if entries.last().0 == name {
        entries.last().1
    } else {
        count_of(entries.drop_last(), name)
    }
}

/// The count after one more, held at the largest number.
pub open spec fn bumped(count: u64) -> u64 {
    if count < u64::MAX {
        (count + 1) as u64
    } else {
        count
    }
}

/// The sum of two counts, held at the largest number.
pub open spec fn capped_sum(a: u64, b: u64) -> u64 {
    if a + b <= u64::MAX {
        (a + b) as u64
    } else {
        u64::MAX
    }
}

/// The entries after counting `name` once more: its count goes up by one
/// where it has an entry, and it gets a new last entry with the count 1
/// where it has none.
pub open spec fn counted(entries: Seq<(Seq<char>, u64)>, name: Seq<char>) -> Seq<(Seq<char>, u64)>
    decreases entries.len(),
{
    if entries.len() == 0 {
        seq![(name, 1u64)]
    } else if entries.first().0 == name {
        entries.update(0, (name, bumped(entries.first().1)))
    } else {
        seq![entries.first()] + counted(entries.drop_first(), name)
    }
}

/// Counting changes one entry at most: where the name stands at `i` and
/// nowhere before, that entry's count goes up and all else stays.
pub proof fn lemma_counted_at(entries: Seq<(Seq<char>, u64)>, name: Seq<char>, i: int)
    requires
        0 <= i < entries.len(),
        entries[i].0 == name,
        forall|j: int| 0 <= j < i ==> (#[trigger] entries[j]).0 != name,
    ensures
        counted(entries, name) == entries.update(i, (name, bumped(entries[i].1))),
    decreases entries.len(),
{
    if i == 0 {
    } else {
        let rest = entries.drop_first();
        assert forall|j: int| 0 <= j < i - 1 implies (#[trigger] rest[j]).0 != name by {
            assert(rest[j] == entries[j + 1]);
        }
        lemma_counted_at(rest, name, i - 1);
        assert(counted(entries, name) =~= entries.update(i, (name, bumped(entries[i].1))));
    }
}

/// Counting a name that has no entry appends one with the count 1.
pub proof fn lemma_counted_new(entries: Seq<(Seq<char>, u64)>, name: Seq<char>)
    requires
        !has_name(entries, name),
    ensures
        counted(entries, name) == entries.push((name, 1u64)),
    decreases entries.len(),
{
    if entries.len() == 0 {
        assert(counted(entries, name) =~= entries.push((name, 1u64)));
    } else {
        let rest = entries.drop_first();
        assert(entries[0].0 != name);
        assert forall|j: int| 0 <= j < rest.len() implies (#[trigger] rest[j]).0 != name by {
            assert(rest[j] == entries[j + 1]);
        }
        lemma_counted_new(rest, name);
        assert(counted(entries, name) =~= entries.push((name, 1u64)));
    }
}

/// A ranking with one more entry: the entry takes its place behind every
/// entry whose count is as large as its own or larger.
pub open spec fn ranked_with(ranking: Seq<(Seq<char>, u64)>, entry: (Seq<char>, u64)) -> Seq<
    (Seq<char>, u64),
>
    decreases ranking.len(),
{
    if ranking.len() == 0 {
        seq![entry]
    } else if ranking.first().1 >= entry.1 {
        seq![ranking.first()] + ranked_with(ranking.drop_first(), entry)
    } else {
        seq![entry] + ranking
    }
}

/// The entries by falling count. Entries with equal counts keep the order
/// in which they stand.
pub open spec fn ranked(entries: Seq<(Seq<char>, u64)>) -> Seq<(Seq<char>, u64)>
    decreases entries.len(),
{
    if entries.len() == 0 {
        Seq::empty()
    } else {
        ranked_with(ranked(entries.drop_last()), entries.last())
    }
}

/// The counts never rise from one entry to the next.
pub open spec fn falling(ranking: Seq<(Seq<char>, u64)>) -> bool {
    forall|i: int, j: int|
        0 <= i <= j < ranking.len() ==> (#[trigger] ranking[i]).1 >= (#[trigger] ranking[j]).1
}

/// The place that `ranked_with` gives a new entry: behind the entries whose
/// count is as large or larger, before all others.
pub open spec fn rank_of(ranking: Seq<(Seq<char>, u64)>, count: u64) -> int
    decreases ranking.len(),
{
    if ranking.len() == 0 {
        0
    } else if ranking.first().1 >= count {
        1 + rank_of(ranking.drop_first(), count)
    } else {
        0
    }
}

/// `ranked_with` puts the entry at `rank_of` and moves nothing else.
pub proof fn lemma_ranked_with(ranking: Seq<(Seq<char>, u64)>, entry: (Seq<char>, u64))
    ensures
        0 <= rank_of(ranking, entry.1) <= ranking.len(),
        ranked_with(ranking, entry) == ranking.insert(rank_of(ranking, entry.1), entry),
        forall|i: int| 0 <= i < rank_of(ranking, entry.1) ==> (#[trigger] ranking[i]).1 >= entry.1,
        rank_of(ranking, entry.1) < ranking.len() ==> ranking[rank_of(ranking, entry.1)].1
            < entry.1,
    decreases ranking.len(),
{
    if ranking.len() == 0 {
        assert(ranked_with(ranking, entry) =~= ranking.insert(0, entry));
    } else if ranking.first().1 >= entry.1 {
        let rest = ranking.drop_first();
        lemma_ranked_with(rest, entry);
        let place = rank_of(rest, entry.1);
        assert(ranked_with(ranking, entry) =~= ranking.insert(place + 1, entry));
        assert forall|i: int| 0 <= i < place + 1 implies (#[trigger] ranking[i]).1 >= entry.1 by {
            if i > 0 {
                assert(ranking[i] == rest[i - 1]);
            }
        }
        if place + 1 < ranking.len() {
            assert(ranking[place + 1] == rest[place]);
        }
    } else {
        assert(ranked_with(ranking, entry) =~= ranking.insert(0, entry));
    }
}

/// A ranking with one more entry is still in falling order.
pub proof fn lemma_ranked_with_falls(ranking: Seq<(Seq<char>, u64)>, entry: (Seq<char>, u64))
    requires
        falling(ranking),
    ensures
        falling(ranked_with(ranking, entry)),
        ranked_with(ranking, entry).len() == ranking.len() + 1,
{
    lemma_ranked_with(ranking, entry);
    let place = rank_of(ranking, entry.1);
    let after = ranking.insert(place, entry);
    assert forall|i: int, j: int| 0 <= i <= j < after.len() implies (#[trigger] after[i]).1 >= (
    #[trigger] after[j]).1 by {
        if i < place && j < place {
            assert(after[i] == ranking[i] && after[j] == ranking[j]);
        } else if i < place && j == place {
            assert(after[i] == ranking[i]);
        } else if i < place && j > place {
            assert(after[i] == ranking[i] && after[j] == ranking[j - 1]);
        } else if i == place && j > place {
            assert(after[j] == ranking[j - 1]);
            assert(ranking[place].1 >= ranking[j - 1].1);
        } else if i > place {
            assert(after[i] == ranking[i - 1] && after[j] == ranking[j - 1]);
        }
    }
}

/// Ranking orders: the counts of a ranking never rise, and the ranking has
/// as many entries as were ranked.
pub proof fn lemma_ranked_falls(entries: Seq<(Seq<char>, u64)>)
    ensures
        falling(ranked(entries)),
        ranked(entries).len() == entries.len(),
    decreases entries.len(),
{
    if entries.len() > 0 {
        lemma_ranked_falls(entries.drop_last());
        lemma_ranked_with_falls(ranked(entries.drop_last()), entries.last());
    }
}

/// Ranking loses nothing and adds nothing: a ranking holds each entry as
/// often as what was ranked.
pub proof fn lemma_ranked_rearranges(entries: Seq<(Seq<char>, u64)>)
    ensures
        ranked(entries).to_multiset() == entries.to_multiset(),
    decreases entries.len(),
{
    if entries.len() > 0 {
        let front = entries.drop_last();
        lemma_ranked_rearranges(front);
        lemma_ranked_with(ranked(front), entries.last());
        vstd::seq_lib::to_multiset_insert(
            ranked(front),
            rank_of(ranked(front), entries.last().1),
            entries.last(),
        );
        vstd::seq_lib::to_multiset_build(front, entries.last());
        assert(front.push(entries.last()) =~= entries);
        assert(ranked(entries).to_multiset() == ranked(front).to_multiset().insert(
            entries.last(),
        ));
        assert(entries.to_multiset() =~= front.to_multiset().insert(entries.last()));
    } else {
        assert(entries =~= Seq::empty());
        assert(ranked(entries) =~= Seq::empty());
    }
}

/// The first of a ranking leads: no entry that was ranked has a larger
/// count.
pub proof fn lemma_leader_is_greatest(entries: Seq<(Seq<char>, u64)>, i: int)
    requires
        0 <= i < entries.len(),
    ensures
        ranked(entries).len() == entries.len(),
        ranked(entries)[0].1 >= entries[i].1,
{
    lemma_ranked_falls(entries);
    lemma_ranked_rearranges(entries);
    let ranking = ranked(entries);
    assert(entries.contains(entries[i]));
    vstd::seq_lib::to_multiset_contains(entries, entries[i]);
    vstd::seq_lib::to_multiset_contains(ranking, entries[i]);
    assert(ranking.contains(entries[i]));
    let j = choose|j: int| 0 <= j < ranking.len() && ranking[j] == entries[i];
    assert(ranking[0].1 >= ranking[j].1);
}

/// The first `n` entries of the ranking, or all of them where there are
/// fewer.
pub open spec fn top_of(entries: Seq<(Seq<char>, u64)>, n: nat) -> Seq<(Seq<char>, u64)> {
    if n <= ranked(entries).len() {
        ranked(entries).take(n as int)
    } else {
        ranked(entries)
    }
}

/// The entries with their names as sequences of characters.
pub open spec fn entries_of(entries: Seq<(String, u64)>) -> Seq<(Seq<char>, u64)> {
    Seq::new(entries.len(), |i: int| (entries[i].0@, entries[i].1))
}

/// One count for each name seen, in the order of first sight.
#[derive(Debug, PartialEq, Eq)]
pub struct Tally {
    entries: Vec<(String, u64)>,
}

impl View for Tally {
    type V = Seq<(Seq<char>, u64)>;

    closed spec fn view(&self) -> Seq<(Seq<char>, u64)> {
        Seq::new(self.entries@.len(), |i: int| (self.entries@[i].0@, self.entries@[i].1))
    }
}

impl Tally {
    #[verifier::type_invariant]
    spec fn inv(self) -> bool {
        distinct_names(self@)
    }

    /// A tally that has seen nothing.
    pub fn new() -> (tally: Self)
        ensures
            tally@ == Seq::<(Seq<char>, u64)>::empty(),
    {
        let tally = Tally { entries: Vec::new() };
        assert(tally@ =~= Seq::<(Seq<char>, u64)>::empty());
        tally
    }

    /// The number of names seen. No name occurs twice in a tally.
    pub fn len(&self) -> (len: usize)
        ensures
            len == self@.len(),
            distinct_names(self@),
    {
        proof {
            use_type_invariant(self);
        }
        self.entries.len()
    }

    /// Forgets every name.
    pub fn clear(&mut self)
        ensures
            final(self)@ == Seq::<(Seq<char>, u64)>::empty(),
    {
        self.entries = Vec::new();
        assert(self@ =~= Seq::<(Seq<char>, u64)>::empty());
    }

    /// Counts `name` once more.
    pub fn add(&mut self, name: &String)
        ensures
            final(self)@ == counted(old(self)@, name@),
            distinct_names(final(self)@),
    {
        proof {
            use_type_invariant(&*self);
        }
        let mut i: usize = 0;
        while i < self.entries.len()
            invariant
                i <= self.entries@.len(),
                self.entries == old(self).entries,
                distinct_names(self@),
                forall|j: int| 0 <= j < i ==> (#[trigger] self@[j]).0 != name@,
            decreases self.entries@.len() - i,
        {
            if self.entries[i].0 == *name {
                let count = self.entries[i].1;
                let more = if count < u64::MAX {
                    count + 1
                } else {
                    count
                };
                let ghost before = self@;
                let mut entries = Vec::new();
                std::mem::swap(&mut entries, &mut self.entries);
                entries.set(i, (name.clone(), more));
                proof {
                    lemma_counted_at(before, name@, i as int);
                    let after = Seq::new(
                        entries@.len(),
                        |k: int| (entries@[k].0@, entries@[k].1),
                    );
                    assert(after =~= before.update(i as int, (name@, bumped(before[i as int].1))));
                    assert(distinct_names(after)) by {
                        assert forall|a: int, b: int| 0 <= a < b < after.len() implies (
                        #[trigger] after[a]).0 != (#[trigger] after[b]).0 by {
                            assert(after[a].0 == before[a].0);
                            assert(after[b].0 == before[b].0);
                        }
                    }
                }
                self.entries = entries;
                proof {
                    assert(self@ =~= counted(before, name@));
                }
                return ;
            }
            i = i + 1;
        }
        let ghost before = self@;
        let mut entries = Vec::new();
        std::mem::swap(&mut entries, &mut self.entries);
        entries.push((name.clone(), 1));
        proof {
            assert(!has_name(before, name@));
            lemma_counted_new(before, name@);
            let after = Seq::new(entries@.len(), |k: int| (entries@[k].0@, entries@[k].1));
            assert(after =~= before.push((name@, 1u64)));
            assert(distinct_names(after)) by {
                assert forall|a: int, b: int| 0 <= a < b < after.len() implies (
                #[trigger] after[a]).0 != (#[trigger] after[b]).0 by {
                    if b < before.len() {
                        assert(after[a].0 == before[a].0);
                        assert(after[b].0 == before[b].0);
                    } else {
                        assert(after[a] == before[a]);
                    }
                }
            }
        }
        self.entries = entries;
        proof {
            assert(self@ =~= counted(before, name@));
        }
    }

    /// The count under `name`, and 0 where it was never seen.
    pub fn get(&self, name: &String) -> (count: u64)
        ensures
            count == count_of(self@, name@),
    {
        let mut i: usize = self.entries.len();
        proof {
            assert(self@.take(i as int) =~= self@);
        }
        while i > 0
            invariant
                i <= self.entries@.len(),
                count_of(self@, name@) == count_of(self@.take(i as int), name@),
            decreases i,
        {
            proof {
                assert(self@.take(i as int).drop_last() =~= self@.take(i - 1));
                assert(self@.take(i as int).last() == self@[i - 1]);
            }
            i = i - 1;
            if self.entries[i].0 == *name {
                return self.entries[i].1;
            }
        }
        proof {
            assert(self@.take(0) =~= Seq::<(Seq<char>, u64)>::empty());
        }
        0
    }

    /// A copy of the entry at `index`.
    pub fn entry(&self, index: usize) -> (entry: (String, u64))
        requires
            index < self@.len(),
        ensures
            (entry.0@, entry.1) == self@[index as int],
    {
        (self.entries[index].0.clone(), self.entries[index].1)
    }

    /// The `n` names with the largest counts, largest first, each with its
    /// count. Names with equal counts come in the order of first sight.
    pub fn top(&self, n: usize) -> (leaders: Vec<(String, u64)>)
        ensures
            entries_of(leaders@) == top_of(self@, n as nat),
    {
        let mut ranking: Vec<(String, u64)> = Vec::new();
        let mut i: usize = 0;
        while i < self.entries.len()
            invariant
                i <= self.entries@.len(),
                entries_of(ranking@) == ranked(self@.take(i as int)),
                ranking@.len() == i,
            decreases self.entries@.len() - i,
        {
            let count = self.entries[i].1;
            let ghost before = entries_of(ranking@);
            let mut place: usize = 0;
            proof {
                assert(before.skip(0) =~= before);
            }
            while place < ranking.len() && ranking[place].1 >= count
                invariant
                    place <= ranking@.len(),
                    before == entries_of(ranking@),
                    rank_of(before, count) == place + rank_of(before.skip(place as int), count),
                decreases ranking@.len() - place,
            {
                proof {
                    assert(before.skip(place as int).first() == before[place as int]);
                    assert(before.skip(place as int).drop_first() =~= before.skip(place + 1));
                }
                place = place + 1;
            }
            proof {
                if place < ranking@.len() {
                    assert(before.skip(place as int).first() == before[place as int]);
                }
                assert(rank_of(before, count) == place);
                lemma_ranked_with(before, (self.entries@[i as int].0@, count));
                assert(self@.take(i + 1).drop_last() =~= self@.take(i as int));
                assert(self@.take(i + 1).last() == (self.entries@[i as int].0@, count));
            }
            ranking.insert(place, (self.entries[i].0.clone(), count));
            proof {
                assert(entries_of(ranking@) =~= before.insert(
                    place as int,
                    (self.entries@[i as int].0@, count),
                ));
            }
            i = i + 1;
        }
        proof {
            assert(self@.take(i as int) =~= self@);
        }
        if n < ranking.len() {
            let ghost full = entries_of(ranking@);
            ranking.truncate(n);
            proof {
                assert(entries_of(ranking@) =~= full.take(n as int));
            }
        }
        ranking
    }
}

} // verus!
