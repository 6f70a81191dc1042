//! The correlation table: pending requests by message identifier.
//!
//! An endpoint inserts an entry when it sends a request and removes it
//! when the response arrives, when the wait times out, or when the link
//! drops. Each identifier holds at most one entry, and a removal takes the
//! entry with it — so at most one arrival per identifier is ever
//! delivered; any later one finds nothing and is dropped.

use vstd::prelude::*;

verus! {

/// Some entry carries the identifier.
pub open spec fn spec_contains_id<T>(s: Seq<(u32, T)>, id: u32) -> bool {
    exists|i: int| 0 <= i < s.len() && s[i].0 == id
}

/// No two entries share an identifier.
pub open spec fn unique_entry_ids<T>(s: Seq<(u32, T)>) -> bool {
    forall|i: int, j: int| 0 <= i < j < s.len() ==> s[i].0 != s[j].0
}

/// One request, one resolution. Recording a fresh identifier keeps the
/// table a map and makes its entry the only one for that identifier, so
/// whichever comes first — the response ([`CorrelationTable::remove`]
/// hands back exactly this slot and leaves no entry behind) or the
/// timeout (the same removal, with the initiator observing the timeout
/// error) — resolves the request exactly once; the loser finds nothing.
pub proof fn lemma_request_resolved_once<T>(s: Seq<(u32, T)>, id: u32, slot: T)
    requires
        unique_entry_ids(s),
        !spec_contains_id(s, id),
    ensures
        unique_entry_ids(s.push((id, slot))),
        spec_contains_id(s.push((id, slot)), id),
        forall|i: int|
            0 <= i < s.push((id, slot)).len() && s.push((id, slot))[i].0 == id ==> s.push(
                (id, slot),
            )[i].1 == slot,
{
    let t = s.push((id, slot));
    assert(t[t.len() - 1] == (id, slot));
    assert forall|i: int| 0 <= i < t.len() && t[i].0 == id implies t[i].1 == slot by {
        if i < s.len() {
            assert(s[i].0 == id);
        }
    }
    assert forall|a: int, b: int| 0 <= a < b < t.len() implies t[a].0 != t[b].0 by {
        if b < s.len() {
            assert(s[a].0 != s[b].0);
        } else {
            assert(t[a] == s[a]);
        }
    }
}

/// Recording one identifier leaves every other identifier's pending
/// status as it was.
pub proof fn lemma_push_preserves_other_ids<T>(s: Seq<(u32, T)>, id: u32, slot: T)
    ensures
        forall|k: u32|
            k != id ==> (spec_contains_id(s.push((id, slot)), k) <==> spec_contains_id(s, k)),
{
    let t = s.push((id, slot));
    assert forall|k: u32| k != id implies (spec_contains_id(t, k) <==> spec_contains_id(s, k)) by {
        if spec_contains_id(t, k) {
            let j = choose|j: int| 0 <= j < t.len() && t[j].0 == k;
            assert(j < s.len());
            assert(s[j].0 == k);
        }
        if spec_contains_id(s, k) {
            let j = choose|j: int| 0 <= j < s.len() && s[j].0 == k;
            assert(t[j].0 == k);
        }
    }
}

/// Pending requests, keyed by message identifier. `T` is the single-shot
/// slot that will receive the response — whatever handle the surrounding
/// driver uses for that.
pub struct CorrelationTable<T> {
    entries: Vec<(u32, T)>,
}

impl<T> View for CorrelationTable<T> {
    type V = Seq<(u32, T)>;

    closed spec fn view(&self) -> Seq<(u32, T)> {
        self.entries@
    }
}

impl<T> CorrelationTable<T> {
    /// Each identifier holds at most one entry.
    pub open spec fn wf(&self) -> bool {
        unique_entry_ids(self@)
    }

    /// An empty table.
    pub fn new() -> (r: CorrelationTable<T>)
        ensures
            r@ == Seq::<(u32, T)>::empty(),
            r.wf(),
    {
        CorrelationTable { entries: Vec::new() }
    }

    /// How many requests are pending.
    pub fn len(&self) -> (r: usize)
        ensures
            r == self@.len(),
    {
        self.entries.len()
    }

    /// Is a request with this identifier pending?
    pub fn contains(&self, id: u32) -> (r: bool)
        ensures
            r == spec_contains_id(self@, id),
    {
        let mut i: usize = 0;
        while i < self.entries.len()
            invariant
                i <= self.entries.len(),
                forall|j: int| 0 <= j < i ==> self@[j].0 != id,
        decreases self.entries.len() - i,
        {
            if self.entries[i].0 == id {
                return true;
            }
            i = i + 1;
        }
        false
    }

    /// Record a pending request. The caller allocates identifiers from a
    /// counter, so a fresh identifier is never already present.
    pub fn insert(&mut self, id: u32, slot: T)
        requires
            old(self).wf(),
            !spec_contains_id(old(self)@, id),
        ensures
            final(self).wf(),
            final(self)@ == old(self)@.push((id, slot)),
            spec_contains_id(final(self)@, id),
    {
        self.entries.push((id, slot));
        proof {
            let s = self@;
            let n = s.len() - 1;
            assert(s[n].0 == id);
            assert(forall|j: int| 0 <= j < n ==> s[j] == old(self)@[j]);
        }
    }

    /// Take the entry for `id`, if one is pending. Exactly the pending
    /// identifier yields its slot; afterwards no entry for `id` remains,
    /// so a second arrival with the same identifier finds nothing, and
    /// every other pending request is untouched.
    pub fn remove(&mut self, id: u32) -> (r: Option<T>)
        requires
            old(self).wf(),
        ensures
            final(self).wf(),
            r is Some <==> spec_contains_id(old(self)@, id),
            r matches Some(t) ==> exists|i: int|
                0 <= i < old(self)@.len() && old(self)@[i] == (id, t) && final(self)@ == old(
                    self)@.remove(i),
            r is None ==> final(self)@ == old(self)@,
            !spec_contains_id(final(self)@, id),
            forall|k: u32|
                k != id ==> (spec_contains_id(final(self)@, k) <==> spec_contains_id(
                    old(self)@,
                    k,
                )),
    {
        let mut i: usize = 0;
        while i < self.entries.len()
            invariant
                i <= self.entries.len(),
                forall|j: int| 0 <= j < i ==> self@[j].0 != id,
                *self == *old(self),
                unique_entry_ids(old(self)@),
            decreases self.entries.len() - i,
        {
            if self.entries[i].0 == id {
                let ghost idx = i as int;
                let ghost before = self@;
                let (_, slot) = self.entries.remove(i);
                proof {
                    let after = self@;
                    assert(after =~= before.remove(idx));
                    assert forall|a: int, b: int|
                        0 <= a < b < after.len() implies after[a].0 != after[b].0 by {
                        let aa: int = if a < idx {
                            a
                        } else {
                            a + 1
                        };
                        let bb: int = if b < idx {
                            b
                        } else {
                            b + 1
                        };
                        assert(after[a] == before[aa]);
                        assert(after[b] == before[bb]);
                    }
                    assert forall|j: int| 0 <= j < after.len() implies after[j].0 != id by {
                        let jj: int = if j < idx {
                            j
                        } else {
                            j + 1
                        };
                        assert(after[j] == before[jj]);
                        if jj > idx {
                            assert(before[idx].0 != before[jj].0);
                        }
                    }
                    assert forall|k: u32| k != id implies (spec_contains_id(after, k)
                        <==> spec_contains_id(before, k)) by {
                        if spec_contains_id(after, k) {
                            let j = choose|j: int| 0 <= j < after.len() && after[j].0 == k;
                            let jj: int = if j < idx {
                                j
                            } else {
                                j + 1
                            };
                            assert(before[jj].0 == k);
                        }
                        if spec_contains_id(before, k) {
                            let j = choose|j: int| 0 <= j < before.len() && before[j].0 == k;
                            if j < idx {
                                assert(after[j].0 == k);
                            } else {
                                assert(j != idx);
                                assert(after[j - 1].0 == k);
                            }
                        }
                    }
                }
                return Some(slot);
            }
            i = i + 1;
        }
        None
    }
}

} // verus!
