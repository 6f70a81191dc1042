//! Identifier allocation for request/response correlation.
//!
//! Every request carries a 32-bit wrapping identifier assigned by its
//! initiator. The BLE endpoints count in steps of one; the stream endpoints
//! count in steps of two so that device-issued identifiers stay odd and
//! host-issued identifiers stay even, and the two sides can never collide.

use vstd::arithmetic::div_mod::{
    lemma_add_mod_noop, lemma_mod_bound, lemma_mod_sub_multiples_vanish, lemma_small_mod,
};
use vstd::prelude::*;

verus! {

/// One past `u32::MAX`: the modulus of the wrapping identifier space.
pub const ID_MODULUS: u64 = 0x1_0000_0000;

/// The identifier that follows `id` when counting in steps of `step`,
/// wrapping at 2^32.
pub open spec fn step_id(id: u32, step: u32) -> u32 {
    if id + step > u32::MAX {
        (id + step - ID_MODULUS) as u32
    } else {
        (id + step) as u32
    }
}

/// The identifier handed out by the `k`-th allocation of a counter that
/// started at `start` and counts in steps of `step`.
pub open spec fn nth_id(start: u32, step: u32, k: nat) -> u32
    decreases k,
{
    if k == 0 {
        start
    } else {
        step_id(nth_id(start, step, (k - 1) as nat), step)
    }
}

proof fn lemma_mod_add_small(a: int, b: int, m: int)
    requires
        m > 0,
        0 <= b < m,
    ensures
        (a % m + b) % m == (a + b) % m,
{
    lemma_add_mod_noop(a, b, m);
    lemma_small_mod(b as nat, m as nat);
}

/// Adding a positive amount smaller than the modulus always moves the
/// residue: no two points inside one window share a residue.
proof fn lemma_mod_shift_changes(a: int, d: int, m: int)
    requires
        m > 0,
        0 < d < m,
    ensures
        (a + d) % m != a % m,
{
    lemma_mod_add_small(a, d, m);
    lemma_mod_bound(a, m);
    let r: int = a % m;
    if r + d < m {
        lemma_small_mod((r + d) as nat, m as nat);
    } else {
        lemma_mod_sub_multiples_vanish(r + d, m);
        lemma_small_mod((r + d - m) as nat, m as nat);
    }
}

/// Closed form of `nth_id`: the `k`-th identifier is `start + step * k`
/// reduced modulo 2^32.
pub proof fn lemma_nth_id_closed_form(start: u32, step: u32, k: nat)
    ensures
        nth_id(start, step, k) == (start + step * k) % (ID_MODULUS as int),
    decreases k,
{
    let m: int = ID_MODULUS as int;
    if k == 0 {
        lemma_small_mod(start as nat, m as nat);
    } else {
        lemma_nth_id_closed_form(start, step, (k - 1) as nat);
        let prev: u32 = nth_id(start, step, (k - 1) as nat);
        assert(step * k == step * (k - 1) + step) by (nonlinear_arith);
        lemma_mod_add_small(start + step * (k - 1), step as int, m);
        assert(step_id(prev, step) == (prev + step) % m);
    }
}

/// Identifier wraparound safety: two allocations of one counter collide
/// only after the counter has gone all the way around. In steps of one
/// that takes 2^32 allocations; in steps of two, 2^31.
pub proof fn lemma_ids_distinct_within_window(start: u32, step: u32, i: nat, j: nat)
    requires
        step == 1 || step == 2,
        i < j,
        step * (j - i) < ID_MODULUS,
    ensures
        nth_id(start, step, i) != nth_id(start, step, j),
{
    let m: int = ID_MODULUS as int;
    lemma_nth_id_closed_form(start, step, i);
    lemma_nth_id_closed_form(start, step, j);
    let a: int = start + step * i;
    let d: int = step * (j - i);
    assert(step * j == step * i + step * (j - i)) by (nonlinear_arith);
    assert(d > 0) by (nonlinear_arith)
        requires
            step >= 1,
            j > i,
            d == step * (j - i),
    ;
    lemma_mod_shift_changes(a, d, m);
}

/// A wrapping counter that allocates message identifiers in steps of one;
/// used by both BLE endpoints.
pub struct MessageCounter {
    next: u32,
}

impl MessageCounter {
    /// The identifier the next allocation will hand out.
    pub closed spec fn spec_next(&self) -> u32 {
        self.next
    }

    /// A fresh counter; the first identifier handed out is zero.
    pub fn new() -> (r: MessageCounter)
        ensures
            r.spec_next() == 0,
    {
        MessageCounter { next: 0 }
    }

    /// Allocate the next message identifier, wrapping at 2^32.
    pub fn get_next_id(&mut self) -> (id: u32)
        ensures
            id == old(self).spec_next(),
            final(self).spec_next() == step_id(old(self).spec_next(), 1),
    {
        let id = self.next;
        self.next = self.next.wrapping_add(1);
        id
    }
}

/// A wrapping counter that allocates stream sequence numbers in steps of
/// two, so that each side keeps the parity it started with: odd for the
/// device, even for the host.
pub struct SeqCounter {
    next: u32,
}

impl SeqCounter {
    /// The sequence number the next allocation will hand out.
    pub closed spec fn spec_next(&self) -> u32 {
        self.next
    }

    /// Counter for the device side of a stream link: odd sequence numbers.
    pub fn new_device() -> (r: SeqCounter)
        ensures
            r.spec_next() == 1,
    {
        SeqCounter { next: 1 }
    }

    /// Counter for the host side of a stream link: even sequence numbers.
    pub fn new_host() -> (r: SeqCounter)
        ensures
            r.spec_next() == 0,
    {
        SeqCounter { next: 0 }
    }

    /// Allocate the next sequence number, two apart from the previous one,
    /// wrapping at 2^32 and keeping its parity.
    pub fn allocate(&mut self) -> (id: u32)
        ensures
            id == old(self).spec_next(),
            final(self).spec_next() == step_id(old(self).spec_next(), 2),
            final(self).spec_next() % 2 == old(self).spec_next() % 2,
    {
        let id = self.next;
        self.next = self.next.wrapping_add(2);
        id
    }
}

/// Counting in steps of two never changes parity, so device-issued (odd)
/// and host-issued (even) stream sequence numbers can never collide.
pub proof fn lemma_parity_preserved(start: u32, k: nat)
    ensures
        nth_id(start, 2, k) % 2 == start % 2,
    decreases k,
{
    if k > 0 {
        lemma_parity_preserved(start, (k - 1) as nat);
    }
}

} // verus!
