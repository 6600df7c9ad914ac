//! The bookkeeping of a pool of shared resources: which items are lent out,
//! which item a request gets, and giving an item back.
use std::sync::Arc;
use vstd::prelude::*;

verus! {

/// Shares the item: `Arc::clone` gives another pointer to the same value.
#[verifier::external_body]
fn share<V>(a: &Arc<V>) -> (r: Arc<V>)
    ensures
        r == *a,
{
    a.clone()
}

/// An item of the pool: idle, or lent out.
#[derive(Debug)]
pub enum Entry<V> {
    Idle(Arc<V>),
    Occupied(Arc<V>),
}

/// The item an entry holds.
pub open spec fn entry_item<V>(e: Entry<V>) -> Arc<V> {
    match e {
        Entry::Idle(v) => v,
        Entry::Occupied(v) => v,
    }
}

impl<V> Entry<V> {
    /// The item the entry holds, shared.
    pub fn inner(&self) -> (r: Arc<V>)
        ensures
            r == entry_item(*self),
    {
        match self {
            Entry::Idle(v) => share(v),
            Entry::Occupied(v) => share(v),
        }
    }
}

/// The entries of a pool, in the order the items were made.
pub struct Slots<V> {
    items: Vec<Entry<V>>,
}

/// The position of the first idle entry at or after `from`, if any.
pub open spec fn first_idle<V>(s: Seq<Entry<V>>, from: int) -> Option<int>
    decreases s.len() - from,
{
    if from < 0 || from >= s.len() {
        None
    } else if s[from] is Idle {
        Some(from)
    } else {
        first_idle(s, from + 1)
    }
}

proof fn lemma_first_idle<V>(s: Seq<Entry<V>>, from: int)
    requires
        0 <= from,
    ensures
        first_idle(s, from) matches Some(i) ==> from <= i < s.len() && s[i] is Idle && forall|
            k: int,
        | from <= k < i ==> !(#[trigger] s[k] is Idle),
        first_idle(s, from) is None ==> forall|k: int| from <= k < s.len() ==> !(#[trigger] s[k] is Idle),
    decreases s.len() - from,
{
    if from < s.len() && !(s[from] is Idle) {
        lemma_first_idle(s, from + 1);
    }
}

impl<V> Slots<V> {
    /// The entries.
    pub closed spec fn entries(&self) -> Seq<Entry<V>> {
        self.items@
    }

    /// No entries.
    pub fn new() -> (r: Self)
        ensures
            r.entries() == Seq::<Entry<V>>::empty(),
    {
        Slots { items: Vec::new() }
    }

    /// Adds a newly made item, idle.
    pub fn add_idle(&mut self, item: V)
        ensures
            final(self).entries() == old(self).entries().push(Entry::Idle(Arc::new(item))),
    {
        self.items.push(Entry::Idle(Arc::new(item)));
    }

    /// The number of entries.
    pub fn len(&self) -> (r: usize)
        ensures
            r == self.entries().len(),
    {
        self.items.len()
    }

    /// Lends out the first idle item: marks it lent and gives its position
    /// and the item; when every item is lent, nothing changes.
    pub fn acquire(&mut self) -> (r: Option<(usize, Arc<V>)>)
        ensures
            r is None ==> first_idle(old(self).entries(), 0) is None && final(self).entries()
                == old(self).entries(),
            r matches Some((i, v)) ==> i < old(self).entries().len() && first_idle(
                old(self).entries(),
                0,
            ) == Some(i as int)
                && v == entry_item(old(self).entries()[i as int]) && final(self).entries()
                == old(self).entries().update(i as int, Entry::Occupied(v)),
    {
        let mut i: usize = 0;
        while i < self.items.len()
            invariant
                i <= self.items@.len(),
                self.items@ == old(self).items@,
                first_idle(self.items@, 0) == first_idle(self.items@, i as int),
            decreases self.items@.len() - i,
        {
            if let Entry::Idle(_) = &self.items[i] {
                let v = self.items[i].inner();
                let ghost before = self.items@;
                self.items.set(i, Entry::Occupied(share(&v)));
                assert(first_idle(before, i as int) == Some(i as int));
                assert(i < before.len());
                return Some((i, v));
            }
            i = i + 1;
        }
        None
    }

    /// Gives the item at `at` back: it is idle again, and holds the same item.
    pub fn release(&mut self, at: usize)
        requires
            at < old(self).entries().len(),
        ensures
            final(self).entries() == old(self).entries().update(
                at as int,
                Entry::Idle(entry_item(old(self).entries()[at as int])),
            ),
    {
        let v = self.items[at].inner();
        self.items.set(at, Entry::Idle(v));
    }
}

/// Lending out an item and giving it back leaves the pool as it was.
pub proof fn lemma_acquire_release<V>(s: Seq<Entry<V>>, i: int)
    requires
        first_idle(s, 0) == Some(i),
    ensures
        s.update(i, Entry::Occupied(entry_item(s[i]))).update(
            i,
            Entry::Idle(entry_item(s.update(i, Entry::Occupied(entry_item(s[i])))[i])),
        ) == s,
{
    lemma_first_idle(s, 0);
    let t = s.update(i, Entry::Occupied(entry_item(s[i])));
    assert(t.update(i, Entry::Idle(entry_item(t[i]))) =~= s);
}

/// The item lent out is the first idle one: every item before it is lent.
pub proof fn lemma_acquire_first<V>(s: Seq<Entry<V>>, i: int)
    requires
        first_idle(s, 0) == Some(i),
    ensures
        0 <= i < s.len(),
        s[i] is Idle,
        forall|k: int| 0 <= k < i ==> s[k] is Occupied,
{
    lemma_first_idle(s, 0);
    assert forall|k: int| 0 <= k < i implies s[k] is Occupied by {
        assert(!(s[k] is Idle));
    }
}

/// The number of entries that are lent out.
pub open spec fn lent_count<V>(s: Seq<Entry<V>>) -> nat
    decreases s.len(),
{
    if s.len() == 0 {
        0
    } else {
        lent_count(s.drop_last()) + (if s.last() is Occupied {
            1nat
        } else {
            0nat
        })
    }
}

proof fn lemma_lent_count_bound<V>(s: Seq<Entry<V>>)
    ensures
        lent_count(s) <= s.len(),
        lent_count(s) == s.len() <==> (forall|k: int| 0 <= k < s.len() ==> (#[trigger] s[k]) is Occupied),
    decreases s.len(),
{
    if s.len() > 0 {
        lemma_lent_count_bound(s.drop_last());
        if lent_count(s) == s.len() {
            assert forall|k: int| 0 <= k < s.len() implies (#[trigger] s[k]) is Occupied by {
                if k < s.len() - 1 {
                    assert(s.drop_last()[k] == s[k]);
                }
            }
        }
        if forall|k: int| 0 <= k < s.len() ==> (#[trigger] s[k]) is Occupied {
            assert forall|k: int| 0 <= k < s.drop_last().len() implies (#[trigger] s.drop_last()[k]) is Occupied by {
                assert(s[k] is Occupied);
            }
        }
    }
}

proof fn lemma_lent_count_update<V>(s: Seq<Entry<V>>, i: int, e: Entry<V>)
    requires
        0 <= i < s.len(),
    ensures
        lent_count(s.update(i, e)) + (if s[i] is Occupied {
            1int
        } else {
            0int
        }) == lent_count(s) + (if e is Occupied {
            1int
        } else {
            0int
        }),
    decreases s.len(),
{
    if i == s.len() - 1 {
        assert(s.update(i, e).drop_last() =~= s.drop_last());
    } else {
        lemma_lent_count_update(s.drop_last(), i, e);
        assert(s.update(i, e).drop_last() =~= s.drop_last().update(i, e));
    }
}

/// Lending out an item lends one more, giving an item back lends one fewer,
/// and no more items are lent than the pool holds; the pool has no idle item
/// to lend exactly when every item is lent.
pub proof fn lemma_lent_count<V>(s: Seq<Entry<V>>, i: int, at: int)
    ensures
        lent_count(s) <= s.len(),
        first_idle(s, 0) is None <==> lent_count(s) == s.len(),
        first_idle(s, 0) == Some(i) ==> lent_count(s.update(i, Entry::Occupied(entry_item(s[i]))))
            == lent_count(s) + 1,
        0 <= at < s.len() && s[at] is Occupied ==> lent_count(
            s.update(at, Entry::Idle(entry_item(s[at]))),
        ) + 1 == lent_count(s),
{
    lemma_lent_count_bound(s);
    lemma_first_idle(s, 0);
    if first_idle(s, 0) == Some(i) {
        lemma_lent_count_update(s, i, Entry::Occupied(entry_item(s[i])));
    }
    if 0 <= at < s.len() && s[at] is Occupied {
        lemma_lent_count_update(s, at, Entry::Idle(entry_item(s[at])));
    }
    if lent_count(s) == s.len() {
        assert(first_idle(s, 0) is None) by {
            if first_idle(s, 0) is Some {
                let j = first_idle(s, 0)->0;
                assert(s[j] is Occupied);
            }
        }
    }
    if first_idle(s, 0) is None {
        assert forall|k: int| 0 <= k < s.len() implies (#[trigger] s[k]) is Occupied by {
            assert(!(s[k] is Idle));
        }
    }
}

} // verus!
