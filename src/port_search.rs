//! The order in which local ports are tried when a forward needs one.
//!
//! Whether a port is free is a question for the operating system, asked by
//! the caller. The search here decides what to ask next: the preferred port,
//! then its neighbours (above before below, nearest first), then a fixed scan
//! of high ports, and finally a port that the operating system assigns. The
//! answer is a point-in-time check: another process may take the port before
//! it is used.

use vstd::prelude::*;

verus! {

/// How far from the preferred port the neighbours are tried.
pub const NEAR_RADIUS: u32 = 10;

/// The first port of the fixed scan.
pub const SCAN_START: u32 = 19200;

/// How many consecutive ports the fixed scan covers.
pub const SCAN_COUNT: u32 = 20100;

/// The number of places in the search order: the preferred port, an upper and
/// a lower neighbour for each distance, and the scan.
pub const SLOTS: u32 = 1 + 2 * NEAR_RADIUS + SCAN_COUNT;

/// The port tried at place `k` of the search from `p`, if there is one: a
/// neighbour outside the range of ports is skipped.
pub open spec fn slot_port(p: u16, k: int) -> Option<u16> {
    if k == 0 {
        Some(p)
    } else if 1 <= k <= 2 * NEAR_RADIUS {
        let off = (k + 1) / 2;
        if k % 2 == 1 {
            if p + off <= u16::MAX { Some((p + off) as u16) } else { None }
        } else {
            if p - off >= 0 { Some((p - off) as u16) } else { None }
        }
    } else if 2 * NEAR_RADIUS < k < SLOTS {
        Some((SCAN_START + (k - 2 * NEAR_RADIUS - 1)) as u16)
    } else {
        None
    }
}

/// What the search ends with when no place of its order gave a free port:
/// the port that the operating system assigned, or else the preferred one.
pub open spec fn settle_spec(p: u16, assigned: Option<u16>) -> u16 {
    match assigned {
        Some(a) => a,
        None => p,
    }
}

/// The port found from place `k` on, where `free` tells which ports are free
/// and `assigned` is what the operating system hands out when asked.
pub open spec fn search_at(
    p: u16,
    k: int,
    free: spec_fn(u16) -> bool,
    assigned: Option<u16>,
) -> u16
    decreases SLOTS - k,
{
    if k < 0 || k >= SLOTS {
        settle_spec(p, assigned)
    } else {
        match slot_port(p, k) {
            Some(c) => if free(c) { c } else { search_at(p, k + 1, free, assigned) },
            None => search_at(p, k + 1, free, assigned),
        }
    }
}

/// The port that a search from the preferred port `p` settles on.
pub open spec fn find_available(p: u16, free: spec_fn(u16) -> bool, assigned: Option<u16>) -> u16 {
    search_at(p, 0, free, assigned)
}

/// The first place at or after `k` that holds a port, or `SLOTS`.
pub open spec fn next_slot(p: u16, k: int) -> int
    decreases SLOTS - k,
{
    if k >= SLOTS {
        SLOTS as int
    } else if slot_port(p, k) is Some {
        k
    } else {
        next_slot(p, k + 1)
    }
}

/// What to ask the operating system next.
#[derive(Debug, Clone, Copy, PartialEq, Eq, Structural)]
pub enum Probe {
    /// Whether this port is free.
    Port(u16),
    /// Which port it assigns when asked for any.
    Assigned,
}

/// A search for a local port in progress.
#[derive(Debug, Clone, Copy, PartialEq, Eq, Structural)]
pub struct PortSearch {
    pub preferred: u16,
    /// The place of the search order that comes next.
    pub slot: u32,
}

/// One step of the search: the next port of the order and the search after
/// it, or, once the order is spent, the request for an assigned port.
pub open spec fn advance(s: PortSearch) -> (PortSearch, Probe) {
    let j = next_slot(s.preferred, s.slot as int);
    if j < SLOTS {
        (PortSearch { preferred: s.preferred, slot: (j + 1) as u32 }, Probe::Port(slot_port(s.preferred, j)->0))
    } else {
        (PortSearch { preferred: s.preferred, slot: SLOTS }, Probe::Assigned)
    }
}

proof fn lemma_next_slot_bounds(p: u16, k: int)
    requires
        0 <= k,
    ensures
        k <= next_slot(p, k) <= SLOTS || (k > SLOTS && next_slot(p, k) == SLOTS),
        next_slot(p, k) < SLOTS ==> slot_port(p, next_slot(p, k)) is Some,
    decreases SLOTS - k,
{
    if k < SLOTS && slot_port(p, k) is None {
        lemma_next_slot_bounds(p, k + 1);
    }
}

/// The search from place `k` is the search from the next place that holds a
/// port.
proof fn lemma_search_skips(p: u16, k: int, free: spec_fn(u16) -> bool, assigned: Option<u16>)
    requires
        0 <= k <= SLOTS,
    ensures
        search_at(p, k, free, assigned) == search_at(p, next_slot(p, k), free, assigned),
    decreases SLOTS - k,
{
    if k < SLOTS && slot_port(p, k) is None {
        lemma_search_skips(p, k + 1, free, assigned);
    }
}

/// Each step keeps the port that the search settles on: a free port that it
/// asks about is that port, an occupied one leaves the outcome to the search
/// after the step, and once the order is spent the outcome is the assigned
/// port or else the preferred one.
pub proof fn lemma_probe_keeps_outcome(s: PortSearch, free: spec_fn(u16) -> bool, assigned: Option<u16>)
    requires
        s.wf(),
    ensures
        advance(s).0.wf(),
        advance(s).0.preferred == s.preferred,
        advance(s).1 matches Probe::Port(c) ==> advance(s).0.slot > s.slot
            && s.outcome(free, assigned) == (if free(c) { c } else { advance(s).0.outcome(free, assigned) }),
        advance(s).1 is Assigned ==> s.outcome(free, assigned) == settle_spec(s.preferred, assigned),
{
    lemma_next_slot_bounds(s.preferred, s.slot as int);
    lemma_search_skips(s.preferred, s.slot as int, free, assigned);
}

/// A free preferred port is the one found.
pub proof fn lemma_free_preferred_is_kept(p: u16, free: spec_fn(u16) -> bool, assigned: Option<u16>)
    requires
        free(p),
    ensures
        find_available(p, free, assigned) == p,
{
}

/// With the preferred port taken and the one above it free, the one above
/// is found: the upper neighbour comes before the lower one and before the
/// scan.
pub proof fn lemma_upper_neighbour_first(p: u16, free: spec_fn(u16) -> bool, assigned: Option<u16>)
    requires
        !free(p),
        p < u16::MAX,
        free((p + 1) as u16),
    ensures
        find_available(p, free, assigned) == p + 1,
{
    assert(slot_port(p, 1) == Some((p + 1) as u16));
    assert(search_at(p, 1, free, assigned) == p + 1);
}

/// Every place of the order holds a port within the preferred port's
/// neighbourhood or within the scan.
proof fn lemma_slot_in_ranges(p: u16, k: int)
    requires
        slot_port(p, k) is Some,
    ensures
        p - NEAR_RADIUS <= slot_port(p, k)->0 <= p + NEAR_RADIUS
            || SCAN_START <= slot_port(p, k)->0 < SCAN_START + SCAN_COUNT,
{
}

proof fn lemma_all_taken_settles(p: u16, k: int, free: spec_fn(u16) -> bool, assigned: Option<u16>)
    requires
        forall|q: u16|
            (p - NEAR_RADIUS <= q <= p + NEAR_RADIUS || SCAN_START <= q < SCAN_START + SCAN_COUNT)
                ==> !#[trigger] free(q),
    ensures
        search_at(p, k, free, assigned) == settle_spec(p, assigned),
    decreases SLOTS - k,
{
    if 0 <= k < SLOTS {
        if slot_port(p, k) is Some {
            lemma_slot_in_ranges(p, k);
        }
        lemma_all_taken_settles(p, k + 1, free, assigned);
    }
}

/// The search always ends with a port: with every neighbour within the
/// radius and every port of the scan taken, it is the one that the operating
/// system assigned, or the preferred one where none was assigned.
pub proof fn lemma_exhausted_search_falls_back(p: u16, free: spec_fn(u16) -> bool, assigned: Option<u16>)
    requires
        forall|q: u16|
            (p - NEAR_RADIUS <= q <= p + NEAR_RADIUS || SCAN_START <= q < SCAN_START + SCAN_COUNT)
                ==> !#[trigger] free(q),
    ensures
        find_available(p, free, assigned) == settle_spec(p, assigned),
        assigned matches Some(a) ==> find_available(p, free, assigned) == a,
{
    lemma_all_taken_settles(p, 0, free, assigned);
}

impl PortSearch {
    pub open spec fn wf(&self) -> bool {
        self.slot <= SLOTS
    }

    /// The port that this search settles on, given which ports are free and
    /// what the operating system assigns.
    pub open spec fn outcome(&self, free: spec_fn(u16) -> bool, assigned: Option<u16>) -> u16 {
        search_at(self.preferred, self.slot as int, free, assigned)
    }

    /// A search that starts at the preferred port.
    pub fn new(preferred: u16) -> (r: PortSearch)
        ensures
            r.wf(),
            r.preferred == preferred,
            r.slot == 0,
            forall|free: spec_fn(u16) -> bool, assigned: Option<u16>|
                #[trigger] r.outcome(free, assigned) == find_available(preferred, free, assigned),
    {
        PortSearch { preferred, slot: 0 }
    }

    /// The next thing to ask: the next port of the order, or, once the order
    /// is spent, an assigned port.
    pub fn next_probe(&mut self) -> (r: Probe)
        requires
            old(self).wf(),
        ensures
            final(self).wf(),
            (*final(self), r) == advance(*old(self)),
    {
        let p = self.preferred;
        let mut k: u32 = self.slot;
        while k < SLOTS
            invariant
                old(self).slot <= k <= SLOTS,
                self.preferred == p,
                *self == *old(self),
                next_slot(p, old(self).slot as int) == next_slot(p, k as int),
            decreases SLOTS - k,
        {
            match slot_candidate(p, k) {
                Some(c) => {
                    self.slot = k + 1;
                    return Probe::Port(c);
                },
                None => {
                    k = k + 1;
                },
            }
        }
        self.slot = SLOTS;
        Probe::Assigned
    }
}

/// The port at place `k` of the search from `p`.
pub fn slot_candidate(p: u16, k: u32) -> (r: Option<u16>)
    ensures
        r == slot_port(p, k as int),
{
    if k == 0 {
        Some(p)
    } else if k <= 2 * NEAR_RADIUS {
        let off: u32 = (k + 1) / 2;
        if k % 2 == 1 {
            if p as u32 + off <= u16::MAX as u32 {
                Some((p as u32 + off) as u16)
            } else {
                None
            }
        } else {
            if p as u32 >= off {
                Some((p as u32 - off) as u16)
            } else {
                None
            }
        }
    } else if k < SLOTS {
        Some((SCAN_START + (k - 2 * NEAR_RADIUS - 1)) as u16)
    } else {
        None
    }
}

/// The port a search ends with once its order is spent: the one the
/// operating system assigned, or else the preferred one.
pub fn settle(preferred: u16, assigned: Option<u16>) -> (r: u16)
    ensures
        r == settle_spec(preferred, assigned),
{
    match assigned {
        Some(a) => a,
        None => preferred,
    }
}

} // verus!
