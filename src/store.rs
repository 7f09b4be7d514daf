use vstd::prelude::*;

use crate::entity::Entity;
use crate::error::ServiceError;

verus! {

/// No two records of `s` share an id.
pub open spec fn unique_ids<T: Entity>(s: Seq<T>) -> bool {
    forall|i: int, j: int|
        0 <= i < s.len() && 0 <= j < s.len() && i != j ==> s[i].spec_id() != s[j].spec_id()
}

/// Some record of `s` has the id `id`.
pub open spec fn contains_id<T: Entity>(s: Seq<T>, id: u64) -> bool {
    exists|i: int| 0 <= i < s.len() && s[i].spec_id() == id
}

/// The position of the record with id `id` (meaningful where `contains_id(s, id)`).
pub open spec fn index_of<T: Entity>(s: Seq<T>, id: u64) -> int {
    choose|i: int| 0 <= i < s.len() && s[i].spec_id() == id
}

/// The largest id in `s`, or 0 where `s` is empty.
pub open spec fn max_id<T: Entity>(s: Seq<T>) -> nat
    decreases s.len(),
{
    if s.len() == 0 {
        0
    } else {
        let m = max_id(s.drop_last());
        let k = s.last().spec_id() as nat;
        if k > m {
            k
        } else {
            m
        }
    }
}

/// The id that the next `create` on contents `s` assigns.
pub open spec fn next_id<T: Entity>(s: Seq<T>) -> nat {
    max_id(s) + 1
}

/// The contents after `create(t)` on contents `s`.
pub open spec fn created<T: Entity>(s: Seq<T>, t: T) -> Seq<T> {
    s.push(t.spec_with_id(next_id(s) as u64))
}

/// The contents after one `create` for each record of `ts`, in order.
pub open spec fn created_all<T: Entity>(s: Seq<T>, ts: Seq<T>) -> Seq<T>
    decreases ts.len(),
{
    if ts.len() == 0 {
        s
    } else {
        created(created_all(s, ts.drop_last()), ts.last())
    }
}

/// No id in `s` exceeds `max_id(s)`, and where `s` is not empty some record holds it.
pub proof fn lemma_max_id_bounds<T: Entity>(s: Seq<T>)
    ensures
        forall|i: int| 0 <= i < s.len() ==> s[i].spec_id() <= max_id(s),
        s.len() > 0 ==> contains_id(s, max_id(s) as u64),
        max_id(s) <= u64::MAX,
    decreases s.len(),
{
    if s.len() > 0 {
        lemma_max_id_bounds(s.drop_last());
        let m = max_id(s.drop_last());
        assert(max_id(s) >= m && max_id(s) >= s.last().spec_id());
        assert forall|i: int| 0 <= i < s.len() implies #[trigger] s[i].spec_id() <= max_id(s) by {
            if i < s.len() - 1 {
                assert(s[i] == s.drop_last()[i]);
            }
        }
        if s.len() > 1 && m >= s.last().spec_id() {
            let j = choose|j: int| 0 <= j < s.drop_last().len() && s.drop_last()[j].spec_id() == m as u64;
            assert(s[j].spec_id() == max_id(s) as u64);
        } else {
            assert(s[s.len() - 1].spec_id() == max_id(s) as u64);
        }
    }
}

/// Where ids are unique, `index_of` finds the one record with that id.
pub proof fn lemma_index_of<T: Entity>(s: Seq<T>, id: u64, i: int)
    requires
        unique_ids(s),
        0 <= i < s.len(),
        s[i].spec_id() == id,
    ensures
        index_of(s, id) == i,
{
}

/// Ids assigned by successive creates follow on from the largest id that was
/// there before, one by one, with no gap and no repeat; the records that were
/// there stay as they were.
pub proof fn lemma_creates_assign_consecutive_ids<T: Entity>(s: Seq<T>, ts: Seq<T>)
    requires
        max_id(s) + ts.len() <= u64::MAX,
    ensures
        created_all(s, ts).len() == s.len() + ts.len(),
        created_all(s, ts).subrange(0, s.len() as int) == s,
        max_id(created_all(s, ts)) == max_id(s) + ts.len(),
        forall|k: int|
            0 <= k < ts.len() ==> created_all(s, ts)[s.len() + k] == (#[trigger] ts[k]).spec_with_id(
                (max_id(s) + k + 1) as u64,
            ) && created_all(s, ts)[s.len() + k].spec_id() == max_id(s) + k + 1,
    decreases ts.len(),
{
    if ts.len() > 0 {
        let prev = created_all(s, ts.drop_last());
        lemma_creates_assign_consecutive_ids(s, ts.drop_last());
        let x = ts.last().spec_with_id(next_id(prev) as u64);
        ts.last().lemma_with_id(next_id(prev) as u64);
        let cur = created_all(s, ts);
        assert(cur == prev.push(x));
        assert(cur.drop_last() == prev);
        assert(cur.subrange(0, s.len() as int) =~= prev.subrange(0, s.len() as int));
        assert forall|k: int| 0 <= k < ts.len() implies cur[s.len() + k] == (#[trigger] ts[k]).spec_with_id(
            (max_id(s) + k + 1) as u64,
        ) && cur[s.len() + k].spec_id() == max_id(s) + k + 1 by {
            if k < ts.len() - 1 {
                assert(cur[s.len() + k] == prev[s.len() + k]);
                assert(ts.drop_last()[k] == ts[k]);
            }
        }
    }
}

/// Whether `id` is one of `ids`.
pub fn contains_u64(ids: &Vec<u64>, id: u64) -> (r: bool)
    ensures
        r == ids@.contains(id),
{
    let mut i: usize = 0;
    while i < ids.len()
        invariant
            i <= ids@.len(),
            forall|j: int| 0 <= j < i ==> ids@[j] != id,
        decreases ids@.len() - i,
    {
        if ids[i] == id {
            return true;
        }
        i = i + 1;
    }
    false
}

/// An ordered collection of records of one kind, keyed by id, that assigns
/// the ids itself. Exclusive access (`&mut`) serialises its operations.
pub struct Store<T> {
    items: Vec<T>,
}

impl<T: Entity> View for Store<T> {
    type V = Seq<T>;

    closed spec fn view(&self) -> Seq<T> {
        self.items@
    }
}

impl<T: Entity> Store<T> {
    /// Ids are unique.
    pub open spec fn wf(&self) -> bool {
        unique_ids(self@)
    }

    /// An empty store.
    pub fn new() -> (r: Store<T>)
        ensures
            r@ == Seq::<T>::empty(),
            r.wf(),
    {
        Store { items: Vec::new() }
    }

    /// A store seeded with `items`, in that order.
    pub fn from_vec(items: Vec<T>) -> (r: Store<T>)
        requires
            unique_ids(items@),
        ensures
            r@ == items@,
            r.wf(),
    {
        Store { items }
    }

    pub fn len(&self) -> (r: usize)
        ensures
            r == self@.len(),
    {
        self.items.len()
    }

    /// The record at position `i`.
    pub fn at(&self, i: usize) -> (r: &T)
        requires
            i < self@.len(),
        ensures
            *r == self@[i as int],
    {
        &self.items[i]
    }

    /// A copy of the contents, in order.
    pub fn list(&self) -> (r: Vec<T>)
        ensures
            r@ == self@,
    {
        let mut r: Vec<T> = Vec::new();
        let mut i: usize = 0;
        while i < self.items.len()
            invariant
                i <= self.items@.len(),
                r@ == self.items@.subrange(0, i as int),
            decreases self.items@.len() - i,
        {
            r.push(self.items[i].duplicate());
            assert(self.items@.subrange(0, i + 1) =~= self.items@.subrange(0, i as int).push(
                self.items@[i as int],
            ));
            i = i + 1;
        }
        assert(self.items@.subrange(0, i as int) =~= self.items@);
        r
    }

    /// The position of the record with id `id`, if there is one.
    pub fn position(&self, id: u64) -> (r: Option<usize>)
        requires
            self.wf(),
        ensures
            r is None <==> !contains_id(self@, id),
            r matches Some(i) ==> i == index_of(self@, id) && i < self@.len() && self@[i as int].spec_id() == id,
    {
        let mut i: usize = 0;
        while i < self.items.len()
            invariant
                self.wf(),
                i <= self.items@.len(),
                forall|j: int| 0 <= j < i ==> self.items@[j].spec_id() != id,
            decreases self.items@.len() - i,
        {
            if self.items[i].id() == id {
                proof {
                    lemma_index_of(self@, id, i as int);
                }
                return Some(i);
            }
            i = i + 1;
        }
        None
    }

    /// The largest id held, or 0 where the store is empty.
    pub fn max_id(&self) -> (r: u64)
        ensures
            r == max_id(self@),
    {
        let mut m: u64 = 0;
        let mut i: usize = 0;
        while i < self.items.len()
            invariant
                i <= self.items@.len(),
                m == max_id(self.items@.subrange(0, i as int)),
            decreases self.items@.len() - i,
        {
            assert(self.items@.subrange(0, i + 1).drop_last() =~= self.items@.subrange(0, i as int));
            let k = self.items[i].id();
            if k > m {
                m = k;
            }
            i = i + 1;
        }
        assert(self.items@.subrange(0, i as int) =~= self.items@);
        m
    }

    /// The records whose id is in `ids`, in store order.
    pub fn select_ids(&self, ids: &Vec<u64>) -> (r: Vec<T>)
        ensures
            r@ == self@.filter(|t: T| ids@.contains(t.spec_id())),
    {
        let ghost pred = |t: T| ids@.contains(t.spec_id());
        let mut r: Vec<T> = Vec::new();
        let mut i: usize = 0;
        while i < self.items.len()
            invariant
                i <= self.items@.len(),
                pred == (|t: T| ids@.contains(t.spec_id())),
                r@ == self.items@.subrange(0, i as int).filter(pred),
            decreases self.items@.len() - i,
        {
            let t = &self.items[i];
            proof {
                assert(self.items@.subrange(0, i + 1) =~= self.items@.subrange(0, i as int).push(*t));
                self.items@.subrange(0, i as int).lemma_filter_push(*t, pred);
            }
            if contains_u64(ids, t.id()) {
                r.push(t.duplicate());
            }
            i = i + 1;
        }
        assert(self.items@.subrange(0, i as int) =~= self.items@);
        r
    }

    /// Whether a `create` can assign an id (the largest id is below `u64::MAX`).
    pub fn can_create(&self) -> (r: bool)
        ensures
            r == (max_id(self@) < u64::MAX),
    {
        self.max_id() < u64::MAX
    }

    /// The record with id `id`.
    pub fn get(&self, id: u64) -> (r: Result<T, ServiceError>)
        requires
            self.wf(),
        ensures
            contains_id(self@, id) ==> r == Ok::<T, ServiceError>(self@[index_of(self@, id)]),
            !contains_id(self@, id) ==> r == Err::<T, ServiceError>(ServiceError::NotFound),
    {
        match self.position(id) {
            Some(i) => Ok(self.items[i].duplicate()),
            None => Err(ServiceError::NotFound),
        }
    }

    /// Appends `t` under the id one above the largest held (1 on an empty
    /// store), whatever id `t` carries, and returns the stored record. The id
    /// follows from the current contents alone: after the record with the
    /// largest id is deleted, that id is assigned again.
    pub fn create(&mut self, t: T) -> (r: T)
        requires
            old(self).wf(),
            max_id(old(self)@) < u64::MAX,
        ensures
            r == t.spec_with_id(next_id(old(self)@) as u64),
            r.spec_id() == max_id(old(self)@) + 1,
            old(self)@.len() == 0 ==> r.spec_id() == 1,
            final(self)@ == old(self)@.push(r),
            final(self)@ == created(old(self)@, t),
            max_id(final(self)@) == max_id(old(self)@) + 1,
            final(self).wf(),
    {
        let id = self.max_id() + 1;
        let r = t.with_id(id);
        proof {
            t.lemma_with_id(id);
            lemma_max_id_bounds(self@);
        }
        self.items.push(r.duplicate());
        assert(self@.drop_last() =~= old(self)@);
        r
    }

    /// Overwrites every field but the id of the record with id `id` by those
    /// of `v`, and returns the updated record.
    pub fn replace(&mut self, id: u64, v: T) -> (r: Result<T, ServiceError>)
        requires
            old(self).wf(),
        ensures
            final(self).wf(),
            contains_id(old(self)@, id) ==> r == Ok::<T, ServiceError>(v.spec_with_id(id))
                && final(self)@ == old(self)@.update(index_of(old(self)@, id), v.spec_with_id(id)),
            !contains_id(old(self)@, id) ==> r == Err::<T, ServiceError>(ServiceError::NotFound)
                && final(self)@ == old(self)@,
    {
        match self.position(id) {
            Some(i) => {
                let r = v.with_id(id);
                proof {
                    v.lemma_with_id(id);
                }
                self.items.set(i, r.duplicate());
                proof {
                    assert forall|a: int, b: int|
                        0 <= a < self@.len() && 0 <= b < self@.len() && a != b implies self@[a].spec_id()
                        != self@[b].spec_id() by {
                        assert(old(self)@[a].spec_id() != old(self)@[b].spec_id());
                    }
                }
                Ok(r)
            },
            None => Err(ServiceError::NotFound),
        }
    }

    /// Removes the record with id `id`.
    pub fn delete(&mut self, id: u64) -> (r: Result<(), ServiceError>)
        requires
            old(self).wf(),
        ensures
            final(self).wf(),
            contains_id(old(self)@, id) ==> r == Ok::<(), ServiceError>(())
                && final(self)@ == old(self)@.remove(index_of(old(self)@, id)),
            !contains_id(old(self)@, id) ==> r == Err::<(), ServiceError>(ServiceError::NotFound)
                && final(self)@ == old(self)@,
    {
        match self.position(id) {
            Some(i) => {
                self.items.remove(i);
                proof {
                    let o = old(self)@;
                    assert forall|a: int, b: int|
                        0 <= a < self@.len() && 0 <= b < self@.len() && a != b implies self@[a].spec_id()
                        != self@[b].spec_id() by {
                        let a2 = if a < i { a } else { a + 1 };
                        let b2 = if b < i { b } else { b + 1 };
                        assert(self@[a] == o[a2]);
                        assert(self@[b] == o[b2]);
                    }
                }
                Ok(())
            },
            None => Err(ServiceError::NotFound),
        }
    }
}

/// After a record is deleted, no record with its id is left, so a later
/// `get` of that id fails with `NotFound`; a delete of an absent id changes
/// nothing.
pub proof fn lemma_delete_then_get<T: Entity>(s: Seq<T>, id: u64)
    requires
        unique_ids(s),
    ensures
        contains_id(s, id) ==> !contains_id(s.remove(index_of(s, id)), id),
        contains_id(s, id) ==> s.remove(index_of(s, id)).len() == s.len() - 1,
{
    if contains_id(s, id) {
        let i = index_of(s, id);
        let t = s.remove(i);
        if contains_id(t, id) {
            let j = choose|j: int| 0 <= j < t.len() && t[j].spec_id() == id;
            let j2 = if j < i { j } else { j + 1 };
            assert(t[j] == s[j2]);
        }
    }
}

} // verus!
