use vstd::prelude::*;

verus! {

/// An inclusive range of TCP ports the plugin may bind, configured by the
/// embedding application. When no range is configured the allocator asks
/// the operating system for an ephemeral port instead.
#[derive(Debug, Clone, Copy, PartialEq, Eq, Structural)]
pub struct PortRange {
    /// Lowest candidate port.
    pub min: u16,
    /// Highest candidate port.
    pub max: u16,
}

impl PortRange {
    /// A range is well formed when it is not empty.
    pub open spec fn wf(self) -> bool {
        self.min <= self.max
    }

    /// How many candidate ports the range holds.
    pub open spec fn width(self) -> nat {
        (self.max - self.min + 1) as nat
    }
}

/// The candidate ports an allocation tries, in the order it tries them:
/// every port of the configured range in ascending order, or the single
/// OS-assigned candidate `0` when no range is configured.
pub open spec fn spec_candidates(range: Option<PortRange>) -> Seq<u16> {
    match range {
        Some(r) => Seq::new(r.width(), |i: int| (r.min + i) as u16),
        None => seq![0u16],
    }
}

/// Hands out candidate ports for the bind loop, lowest first.
///
/// The allocator itself never touches the network: the embedding process
/// asks it for the next candidate, attempts the bind, and comes back on
/// failure. When the candidates are exhausted, allocation has failed for
/// good; there is no retry.
#[derive(Debug)]
pub struct PortAllocator {
    /// The configured range, or `None` for OS-assigned selection.
    pub range: Option<PortRange>,
    /// How many candidates have been handed out so far.
    pub tried: usize,
}

impl PortAllocator {
    /// The allocator hands out a prefix of the candidate sequence.
    pub open spec fn wf(self) -> bool {
        &&& (self.range matches Some(r) ==> r.wf())
        &&& self.tried <= spec_candidates(self.range).len()
    }

    pub fn new(range: Option<PortRange>) -> (a: Self)
        requires
            range matches Some(r) ==> r.wf(),
        ensures
            a.wf(),
            a.range == range,
            a.tried == 0,
    {
        PortAllocator { range, tried: 0 }
    }

    /// The next port to try binding: each call hands out the next entry
    /// of the candidate sequence, and `None` once the sequence is
    /// exhausted, after exactly as many calls as there are candidates.
    pub fn next_candidate(&mut self) -> (r: Option<u16>)
        requires
            old(self).wf(),
        ensures
            final(self).wf(),
            final(self).range == old(self).range,
            old(self).tried == spec_candidates(old(self).range).len() ==> r is None
                && final(self).tried == old(self).tried,
            old(self).tried < spec_candidates(old(self).range).len() ==> r == Some(
                spec_candidates(old(self).range)[old(self).tried as int],
            ) && final(self).tried == old(self).tried + 1,
    {
        match self.range {
            Some(r) => {
                let width: usize = (r.max - r.min) as usize + 1;
                if self.tried >= width {
                    None
                } else {
                    assert(self.tried <= 0xffff);
                    let port: u16 = r.min + (self.tried as u16);
                    self.tried = self.tried + 1;
                    Some(port)
                }
            },
            None => {
                if self.tried >= 1 {
                    None
                } else {
                    self.tried = 1;
                    Some(0)
                }
            },
        }
    }
}

/// The outcome of an allocation run against a set of free ports: the
/// first candidate, in trial order, that is free, or `None` when every
/// candidate is occupied.
pub open spec fn first_free(cands: Seq<u16>, free: Set<u16>) -> Option<u16>
    decreases cands.len(),
{
    if cands.len() == 0 {
        None
    } else if free.contains(cands[0]) {
        Some(cands[0])
    } else {
        first_free(cands.skip(1), free)
    }
}

proof fn lemma_first_free_none(cands: Seq<u16>, free: Set<u16>)
    requires
        forall|i: int| 0 <= i < cands.len() ==> !free.contains(cands[i]),
    ensures
        first_free(cands, free) is None,
    decreases cands.len(),
{
    if cands.len() > 0 {
        assert(forall|i: int|
            0 <= i < cands.skip(1).len() ==> cands.skip(1)[i] == cands[i + 1]);
        lemma_first_free_none(cands.skip(1), free);
    }
}

proof fn lemma_first_free_finds(cands: Seq<u16>, free: Set<u16>) -> (j: int)
    requires
        exists|i: int| 0 <= i < cands.len() && free.contains(cands[i]),
    ensures
        0 <= j < cands.len(),
        free.contains(cands[j]),
        first_free(cands, free) == Some(cands[j]),
        forall|k: int| 0 <= k < j ==> !free.contains(cands[k]),
    decreases cands.len(),
{
    if free.contains(cands[0]) {
        0
    } else {
        assert(forall|i: int|
            0 <= i < cands.skip(1).len() ==> cands.skip(1)[i] == cands[i + 1]);
        let i0 = choose|i: int| 0 <= i < cands.len() && free.contains(cands[i]);
        assert(cands.skip(1)[i0 - 1] == cands[i0]);
        let j1 = lemma_first_free_finds(cands.skip(1), free);
        assert forall|k: int| 0 <= k < j1 + 1 implies !free.contains(cands[k]) by {
            if k >= 1 {
                assert(cands.skip(1)[k - 1] == cands[k]);
            }
        }
        j1 + 1
    }
}

/// With a configured range of width N whose every port is occupied, the
/// allocation run tries exactly the N candidate ports of the range and
/// ends with no port: the exhaustion failure is reached only after the
/// whole range has been tried.
pub proof fn lemma_allocation_exhausts_range(range: PortRange, free: Set<u16>)
    requires
        range.wf(),
        forall|p: u16| range.min <= p <= range.max ==> !free.contains(p),
    ensures
        spec_candidates(Some(range)).len() == range.width(),
        first_free(spec_candidates(Some(range)), free) is None,
{
    let cands = spec_candidates(Some(range));
    assert forall|i: int| 0 <= i < cands.len() implies !free.contains(cands[i]) by {
        assert(cands[i] == (range.min + i) as u16);
        assert(range.min <= cands[i] <= range.max);
    }
    lemma_first_free_none(cands, free);
}

/// With a configured range that holds at least one free port, the
/// allocation run returns a port: a free one, inside the range, and the
/// lowest-numbered free port of the range, since candidates are tried in
/// ascending order.
pub proof fn lemma_allocation_returns_lowest_free(range: PortRange, free: Set<u16>, p: u16)
    requires
        range.wf(),
        range.min <= p <= range.max,
        free.contains(p),
    ensures
        first_free(spec_candidates(Some(range)), free) matches Some(q)
            && free.contains(q)
            && range.min <= q <= range.max
            && forall|o: u16| range.min <= o < q ==> !free.contains(o),
{
    let cands = spec_candidates(Some(range));
    assert(cands[p - range.min] == p);
    let j = lemma_first_free_finds(cands, free);
    let q = cands[j];
    assert(q == (range.min + j) as u16);
    assert forall|o: u16| range.min <= o < q implies !free.contains(o) by {
        assert(cands[o - range.min] == o);
        assert(o - range.min < j);
    }
}

} // verus!
