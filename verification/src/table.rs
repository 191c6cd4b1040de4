//! The ordered endpoint table and the index-repair rule.
//!
//! Endpoints live in insertion order and are addressed by position. Removal
//! is by swap-remove: the last entry moves into the vacated slot, so removal
//! is constant-time but a held position may need repair afterwards.

use vstd::prelude::*;

verus! {

/// The sequence that results from removing position `rm` of `s` by moving
/// the last element into its slot.
pub open spec fn swap_remove_seq<T>(s: Seq<T>, rm: int) -> Seq<T> {
    s.update(rm, s.last()).drop_last()
}

/// The rewrite of a held position after `swap_remove(rm)` on a table whose
/// length was `orig_len`: the held endpoint was removed, or it was the last
/// entry and moved into slot `rm`, or it kept its place.
pub open spec fn repair_index_spec(held: int, rm: int, orig_len: int) -> Option<int> {
    if held == rm {
        None
    } else if held == orig_len - 1 {
        Some(rm)
    } else {
        Some(held)
    }
}

/// Repairs a held position after a swap-remove, following
/// [`repair_index_spec`] exactly.
pub fn repair_index(held: usize, rm: usize, orig_len: usize) -> (r: Option<usize>)
    requires
        held < orig_len,
        rm < orig_len,
    ensures
        held == rm ==> r is None,
        held != rm && held == orig_len - 1 ==> r == Some(rm),
        held != rm && held != orig_len - 1 ==> r == Some(held),
        r is Some <==> repair_index_spec(held as int, rm as int, orig_len as int) is Some,
        r matches Some(j) ==> repair_index_spec(held as int, rm as int, orig_len as int) == Some(
            j as int,
        ),
{
    if held == rm {
        None
    } else if held == orig_len - 1 {
        Some(rm)
    } else {
        Some(held)
    }
}

/// A repaired position refers to the same element as the held position did
/// before the removal; the position is lost exactly when the held element
/// itself was removed.
pub proof fn lemma_repair_preserves_element<T>(s: Seq<T>, held: int, rm: int)
    requires
        0 <= held < s.len(),
        0 <= rm < s.len(),
    ensures
        repair_index_spec(held, rm, s.len() as int) matches Some(j) ==> {
            &&& 0 <= j < swap_remove_seq(s, rm).len()
            &&& swap_remove_seq(s, rm)[j] == s[held]
        },
        repair_index_spec(held, rm, s.len() as int) is None <==> held == rm,
{
}

/// The table applied to a whole sequence of swap-removes, first one first.
pub open spec fn apply_swap_removes<T>(s: Seq<T>, rms: Seq<int>) -> Seq<T>
    decreases rms.len(),
{
    if rms.len() == 0 {
        s
    } else {
        apply_swap_removes(swap_remove_seq(s, rms[0]), rms.drop_first())
    }
}

/// Each removal position is in range for the table it is applied to.
pub open spec fn valid_removals<T>(s: Seq<T>, rms: Seq<int>) -> bool
    decreases rms.len(),
{
    rms.len() == 0 || (0 <= rms[0] < s.len() && valid_removals(
        swap_remove_seq(s, rms[0]),
        rms.drop_first(),
    ))
}

/// A held position carried through a whole sequence of swap-removes by the
/// index-repair rule; `len` is the table length before the first removal.
pub open spec fn repair_through(held: Option<int>, rms: Seq<int>, len: int) -> Option<int>
    decreases rms.len(),
{
    if rms.len() == 0 {
        held
    } else {
        match held {
            None => None,
            Some(h) => repair_through(
                repair_index_spec(h, rms[0], len),
                rms.drop_first(),
                len - 1,
            ),
        }
    }
}

/// Index repair over any sequence of swap-removes: if the carried position
/// survives, it still refers to the very element it referred to before the
/// first removal.
pub proof fn lemma_repair_through_preserves_element<T>(s: Seq<T>, held: int, rms: Seq<int>)
    requires
        0 <= held < s.len(),
        valid_removals(s, rms),
    ensures
        repair_through(Some(held), rms, s.len() as int) matches Some(j) ==> {
            &&& 0 <= j < apply_swap_removes(s, rms).len()
            &&& apply_swap_removes(s, rms)[j] == s[held]
        },
    decreases rms.len(),
{
    if rms.len() > 0 {
        let s2 = swap_remove_seq(s, rms[0]);
        lemma_repair_preserves_element(s, held, rms[0]);
        match repair_index_spec(held, rms[0], s.len() as int) {
            None => {
                assert(repair_through(None, rms.drop_first(), s.len() as int - 1) is None);
            },
            Some(h2) => {
                assert(s2.len() as int == s.len() as int - 1);
                assert(0 <= h2 < s2.len());
                lemma_repair_through_preserves_element(s2, h2, rms.drop_first());
                assert(repair_through(Some(held), rms, s.len() as int) == repair_through(
                    Some(h2),
                    rms.drop_first(),
                    s2.len() as int,
                ));
                assert(apply_swap_removes(s, rms) == apply_swap_removes(s2, rms.drop_first()));
                assert(s2[h2] == s[held]);
            },
        }
    }
}

/// No two entries of the table share a key.
pub open spec fn distinct_keys<S>(s: Seq<(usize, S)>) -> bool {
    forall|i: int, j: int|
        0 <= i < j < s.len() ==> (#[trigger] s[i]).0 != (#[trigger] s[j]).0
}

/// The position of `key` in `s`, meaningful when some entry carries it.
pub open spec fn key_index<S>(s: Seq<(usize, S)>, key: usize) -> int {
    choose|i: int| 0 <= i < s.len() && (#[trigger] s[i]).0 == key
}

pub(crate) proof fn lemma_swap_remove_distinct<S>(s: Seq<(usize, S)>, rm: int)
    requires
        distinct_keys(s),
        0 <= rm < s.len(),
    ensures
        distinct_keys(swap_remove_seq(s, rm)),
{
    let t = swap_remove_seq(s, rm);
    assert forall|i: int, j: int|
        0 <= i < j < t.len() implies (#[trigger] t[i]).0 != (#[trigger] t[j]).0 by {
        assert(t[i] == (if i == rm {
            s[s.len() - 1]
        } else {
            s[i]
        }));
        assert(t[j] == (if j == rm {
            s[s.len() - 1]
        } else {
            s[j]
        }));
    }
}

pub(crate) proof fn lemma_update_entry_distinct<S>(s: Seq<(usize, S)>, i: int, p: (usize, S))
    requires
        distinct_keys(s),
        0 <= i < s.len(),
        p.0 == s[i].0,
    ensures
        distinct_keys(s.update(i, p)),
{
    let t = s.update(i, p);
    assert forall|a: int, b: int|
        0 <= a < b < t.len() implies (#[trigger] t[a]).0 != (#[trigger] t[b]).0 by {
        assert(t[a].0 == s[a].0);
        assert(t[b].0 == s[b].0);
    }
}

pub(crate) proof fn lemma_push_distinct<S>(s: Seq<(usize, S)>, p: (usize, S))
    requires
        distinct_keys(s),
        forall|j: int| 0 <= j < s.len() ==> (#[trigger] s[j]).0 != p.0,
    ensures
        distinct_keys(s.push(p)),
{
    let t = s.push(p);
    assert forall|a: int, b: int|
        0 <= a < b < t.len() implies (#[trigger] t[a]).0 != (#[trigger] t[b]).0 by {
        if b < s.len() {
            assert(t[a] == s[a]);
            assert(t[b] == s[b]);
        } else {
            assert(t[a] == s[a]);
            assert(t[b] == p);
        }
    }
}

/// An ordered mapping from integer keys to services, with constant-time
/// positional access and constant-time swap-removal.
pub struct EndpointTable<S> {
    entries: Vec<(usize, S)>,
}

impl<S> View for EndpointTable<S> {
    type V = Seq<(usize, S)>;

    closed spec fn view(&self) -> Seq<(usize, S)> {
        self.entries@
    }
}

impl<S> EndpointTable<S> {
    /// No two live entries share a key.
    pub open spec fn wf(&self) -> bool {
        distinct_keys(self@)
    }

    /// Some entry carries `key`.
    pub open spec fn has_key(&self, key: usize) -> bool {
        exists|i: int| 0 <= i < self@.len() && (#[trigger] self@[i]).0 == key
    }

    pub fn new() -> (r: Self)
        ensures
            r@ == Seq::<(usize, S)>::empty(),
            r.wf(),
    {
        EndpointTable { entries: Vec::new() }
    }

    pub fn len(&self) -> (n: usize)
        ensures
            n == self@.len(),
    {
        self.entries.len()
    }

    pub fn is_empty(&self) -> (r: bool)
        ensures
            r == (self@.len() == 0),
    {
        self.entries.is_empty()
    }

    /// The position of `key`, if any entry carries it.
    pub fn index_of(&self, key: usize) -> (r: Option<usize>)
        ensures
            r matches Some(i) ==> i < self@.len() && self@[i as int].0 == key,
            r is None ==> !self.has_key(key),
    {
        let n = self.entries.len();
        let mut i: usize = 0;
        while i < n
            invariant
                n == self@.len(),
                i <= n,
                forall|j: int| 0 <= j < i ==> (#[trigger] self@[j]).0 != key,
            decreases n - i,
        {
            if self.entries[i].0 == key {
                return Some(i);
            }
            i += 1;
        }
        None
    }

    pub fn key_at(&self, idx: usize) -> (k: usize)
        requires
            idx < self@.len(),
        ensures
            k == self@[idx as int].0,
    {
        self.entries[idx].0
    }

    /// Mutable access to the service at position `idx`; the key there is
    /// untouched.
    pub fn service_at(&mut self, idx: usize) -> (svc: &mut S)
        requires
            idx < old(self)@.len(),
        ensures
            *svc == old(self)@[idx as int].1,
            final(self)@ == old(self)@.update(
                idx as int,
                (old(self)@[idx as int].0, *final(svc)),
            ),
    {
        let entry = &mut self.entries[idx];
        &mut entry.1
    }

    /// Inserts `svc` under `key`: replaces in place when the key is already
    /// present (no reorder), else appends at the end. Returns the replaced
    /// service, if any.
    pub fn insert(&mut self, key: usize, svc: S) -> (r: Option<S>)
        requires
            old(self).wf(),
        ensures
            final(self).wf(),
            old(self).has_key(key) ==> ({
                let i = key_index(old(self)@, key);
                &&& final(self)@ == old(self)@.update(i, (key, svc))
                &&& r == Some(old(self)@[i].1)
            }),
            !old(self).has_key(key) ==> final(self)@ == old(self)@.push((key, svc)) && r is None,
    {
        match self.index_of(key) {
            Some(i) => {
                self.entries.push((key, svc));
                let old_pair = self.entries.swap_remove(i);
                proof {
                    let ki = key_index(old(self)@, key);
                    assert(0 <= ki < old(self)@.len() && old(self)@[ki].0 == key);
                    if ki != i as int {
                        assert(false);
                    }
                    assert(final(self)@ =~= old(self)@.update(i as int, (key, svc)));
                    lemma_update_entry_distinct(old(self)@, i as int, (key, svc));
                }
                Some(old_pair.1)
            },
            None => {
                self.entries.push((key, svc));
                proof {
                    lemma_push_distinct(old(self)@, (key, svc));
                }
                None
            },
        }
    }

    /// Removes position `idx` by moving the last entry into its slot;
    /// returns the removed entry.
    pub fn swap_remove(&mut self, idx: usize) -> (r: (usize, S))
        requires
            old(self).wf(),
            idx < old(self)@.len(),
        ensures
            r == old(self)@[idx as int],
            final(self)@ == swap_remove_seq(old(self)@, idx as int),
            final(self).wf(),
    {
        let r = self.entries.swap_remove(idx);
        proof {
            lemma_swap_remove_distinct(old(self)@, idx as int);
        }
        r
    }

    /// Removes the entry carrying `key`, if any, by swap-remove; returns the
    /// position it was removed from together with its service.
    pub fn swap_remove_full(&mut self, key: usize) -> (r: Option<(usize, S)>)
        requires
            old(self).wf(),
        ensures
            final(self).wf(),
            r matches Some((i, s)) ==> {
                &&& i < old(self)@.len()
                &&& old(self)@[i as int].0 == key
                &&& s == old(self)@[i as int].1
                &&& final(self)@ == swap_remove_seq(old(self)@, i as int)
            },
            r is None ==> !old(self).has_key(key) && final(self)@ == old(self)@,
    {
        match self.index_of(key) {
            Some(i) => {
                let pair = self.swap_remove(i);
                Some((i, pair.1))
            },
            None => None,
        }
    }
}

} // verus!
