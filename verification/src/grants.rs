//! The buffer grant database: the read-only and read-write memory ranges the
//! fake kernel currently holds, with overlap detection.
//!
//! No two outstanding grants of the same access mode may overlap; an
//! overlapping insertion is refused so the syscall handlers can treat it as a
//! harness-fatal protocol violation.

use vstd::prelude::*;

verus! {

/// Whether the half-open address ranges `[a1, a1 + l1)` and `[a2, a2 + l2)`
/// share at least one address.  Empty ranges overlap nothing.
pub open spec fn overlaps(a1: int, l1: int, a2: int, l2: int) -> bool {
    l1 > 0 && l2 > 0 && a1 < a2 + l2 && a2 < a1 + l1
}

/// Whether the ranges of a grant table are pairwise non-overlapping.
pub open spec fn ranges_disjoint(s: Seq<(usize, usize)>) -> bool {
    forall|i: int, j: int|
        0 <= i < s.len() && 0 <= j < s.len() && i != j ==> !overlaps(
            s[i].0 as int,
            s[i].1 as int,
            s[j].0 as int,
            s[j].1 as int,
        )
}

/// Whether the range `[address, address + len)` overlaps no range of `s`.
pub open spec fn range_free(s: Seq<(usize, usize)>, address: usize, len: usize) -> bool {
    forall|k: int|
        0 <= k < s.len() ==> !overlaps(s[k].0 as int, s[k].1 as int, address as int, len as int)
}

/// The grant table with the first occurrence of the range `g` taken out; the
/// table unchanged when `g` is absent.
pub open spec fn remove_first(s: Seq<(usize, usize)>, g: (usize, usize)) -> Seq<(usize, usize)>
    decreases s.len(),
{
    if s.len() == 0 {
        s
    } else if s[0] == g {
        s.skip(1)
    } else {
        seq![s[0]] + remove_first(s.skip(1), g)
    }
}

/// Handle to an outstanding read-only grant, returned when a buffer enters
/// the database and surrendered to retire it.
#[derive(Clone, Copy, Debug, PartialEq, Eq)]
pub struct RoGrant {
    pub address: usize,
    pub len: usize,
}

/// Handle to an outstanding read-write grant.
#[derive(Clone, Copy, Debug, PartialEq, Eq)]
pub struct RwGrant {
    pub address: usize,
    pub len: usize,
}

/// Refusal of a grant whose range overlaps an outstanding grant of the same
/// access mode.
#[derive(Clone, Copy, Debug, PartialEq, Eq)]
pub struct OverlapError;

/// The database of outstanding buffer grants.  Read-only and read-write
/// grants live in disjoint namespaces: only same-mode ranges must not
/// overlap.
pub struct AllowDb {
    pub ro: Vec<(usize, usize)>,
    pub rw: Vec<(usize, usize)>,
}

/// Checks whether two ranges share at least one address.
fn overlaps_exec(a1: usize, l1: usize, a2: usize, l2: usize) -> (r: bool)
    ensures
        r == overlaps(a1 as int, l1 as int, a2 as int, l2 as int),
{
    l1 > 0 && l2 > 0 && (a1 as u128) < a2 as u128 + l2 as u128 && (a2 as u128) < a1 as u128
        + l1 as u128
}

/// Adds a range to one grant table if and only if it overlaps no range
/// already there.
fn insert_range(v: &mut Vec<(usize, usize)>, address: usize, len: usize) -> (r: Result<
    (),
    OverlapError,
>)
    ensures
        r is Ok <==> range_free(old(v)@, address, len),
        r is Ok ==> final(v)@ == old(v)@.push((address, len)),
        r is Err ==> final(v)@ == old(v)@,
{
    let mut i: usize = 0;
    while i < v.len()
        invariant
            i <= v.len(),
            v@ == old(v)@,
            forall|k: int|
                0 <= k < i ==> !overlaps(v@[k].0 as int, v@[k].1 as int, address as int, len as int),
        decreases v.len() - i,
    {
        let (a, l) = v[i];
        if overlaps_exec(a, l, address, len) {
            return Err(OverlapError);
        }
        i += 1;
    }
    v.push((address, len));
    Ok(())
}

/// Takes the first occurrence of a range out of one grant table, leaving the
/// table unchanged when the range is absent.
fn remove_range(v: &mut Vec<(usize, usize)>, address: usize, len: usize)
    ensures
        final(v)@ == remove_first(old(v)@, (address, len)),
        ranges_disjoint(old(v)@) ==> ranges_disjoint(final(v)@),
{
    let mut i: usize = 0;
    while i < v.len()
        invariant
            i <= v.len(),
            v@ == old(v)@,
            forall|k: int| 0 <= k < i ==> v@[k] != (address, len),
        decreases v.len() - i,
    {
        let (a, l) = v[i];
        if a == address && l == len {
            proof {
                lemma_remove_first_at(v@, (address, len), i as int);
                if ranges_disjoint(v@) {
                    lemma_disjoint_remove(v@, i as int);
                }
            }
            v.remove(i);
            return;
        }
        i += 1;
    }
    proof {
        lemma_remove_first_absent(v@, (address, len));
    }
}

/// `remove_first` taken at the first index holding `g` is the removal of that
/// index.
proof fn lemma_remove_first_at(s: Seq<(usize, usize)>, g: (usize, usize), i: int)
    requires
        0 <= i < s.len(),
        s[i] == g,
        forall|k: int| 0 <= k < i ==> s[k] != g,
    ensures
        remove_first(s, g) == s.remove(i),
    decreases i,
{
    if i == 0 {
        assert(s.skip(1) =~= s.remove(0));
    } else {
        lemma_remove_first_at(s.skip(1), g, i - 1);
        assert(seq![s[0]] + s.skip(1).remove(i - 1) =~= s.remove(i));
    }
}

/// `remove_first` of an absent range leaves the table unchanged.
proof fn lemma_remove_first_absent(s: Seq<(usize, usize)>, g: (usize, usize))
    requires
        forall|k: int| 0 <= k < s.len() ==> s[k] != g,
    ensures
        remove_first(s, g) == s,
    decreases s.len(),
{
    if s.len() > 0 {
        lemma_remove_first_absent(s.skip(1), g);
        assert(seq![s[0]] + s.skip(1) =~= s);
    }
}

/// Dropping one range from a pairwise non-overlapping table keeps the rest
/// pairwise non-overlapping.
proof fn lemma_disjoint_remove(s: Seq<(usize, usize)>, i: int)
    requires
        ranges_disjoint(s),
        0 <= i < s.len(),
    ensures
        ranges_disjoint(s.remove(i)),
{
    let t = s.remove(i);
    assert forall|p: int, q: int|
        0 <= p < t.len() && 0 <= q < t.len() && p != q implies !overlaps(
        t[p].0 as int,
        t[p].1 as int,
        t[q].0 as int,
        t[q].1 as int,
    ) by {
        let p0 = if p < i { p } else { p + 1 };
        let q0 = if q < i { q } else { q + 1 };
        assert(t[p] == s[p0]);
        assert(t[q] == s[q0]);
    }
}

/// Every range of a pairwise non-overlapping table keeps clear of a freshly
/// appended range that overlapped none of them.
proof fn lemma_disjoint_push(s: Seq<(usize, usize)>, address: usize, len: usize)
    requires
        ranges_disjoint(s),
        range_free(s, address, len),
    ensures
        ranges_disjoint(s.push((address, len))),
{
    let t = s.push((address, len));
    assert forall|p: int, q: int|
        0 <= p < t.len() && 0 <= q < t.len() && p != q implies !overlaps(
        t[p].0 as int,
        t[p].1 as int,
        t[q].0 as int,
        t[q].1 as int,
    ) by {
        if p < s.len() && q < s.len() {
            assert(t[p] == s[p]);
            assert(t[q] == s[q]);
        } else if p < s.len() {
            assert(t[p] == s[p]);
            assert(t[q] == (address, len));
        } else {
            assert(t[p] == (address, len));
            assert(t[q] == s[q]);
        }
    }
}

impl AllowDb {
    /// Both grant tables hold pairwise non-overlapping ranges.
    pub open spec fn wf(self) -> bool {
        ranges_disjoint(self.ro@) && ranges_disjoint(self.rw@)
    }

    /// A database with no outstanding grants.
    pub fn new() -> (db: AllowDb)
        ensures
            db.wf(),
            db.ro@.len() == 0,
            db.rw@.len() == 0,
    {
        AllowDb { ro: Vec::new(), rw: Vec::new() }
    }

    /// Registers a read-only buffer if and only if its range overlaps no
    /// outstanding read-only grant.
    pub fn insert_ro_buffer(&mut self, address: usize, len: usize) -> (r: Result<
        RoGrant,
        OverlapError,
    >)
        requires
            old(self).wf(),
        ensures
            final(self).wf(),
            final(self).rw@ == old(self).rw@,
            r is Ok <==> range_free(old(self).ro@, address, len),
            r matches Ok(g) ==> g.address == address && g.len == len && final(self).ro@ == old(
                self,
            ).ro@.push((address, len)),
            r is Err ==> final(self).ro@ == old(self).ro@,
    {
        match insert_range(&mut self.ro, address, len) {
            Ok(()) => {
                proof {
                    lemma_disjoint_push(old(self).ro@, address, len);
                }
                Ok(RoGrant { address, len })
            },
            Err(e) => Err(e),
        }
    }

    /// Registers a read-write buffer if and only if its range overlaps no
    /// outstanding read-write grant.
    pub fn insert_rw_buffer(&mut self, address: usize, len: usize) -> (r: Result<
        RwGrant,
        OverlapError,
    >)
        requires
            old(self).wf(),
        ensures
            final(self).wf(),
            final(self).ro@ == old(self).ro@,
            r is Ok <==> range_free(old(self).rw@, address, len),
            r matches Ok(g) ==> g.address == address && g.len == len && final(self).rw@ == old(
                self,
            ).rw@.push((address, len)),
            r is Err ==> final(self).rw@ == old(self).rw@,
    {
        match insert_range(&mut self.rw, address, len) {
            Ok(()) => {
                proof {
                    lemma_disjoint_push(old(self).rw@, address, len);
                }
                Ok(RwGrant { address, len })
            },
            Err(e) => Err(e),
        }
    }

    /// Retires a read-only grant and hands its range back so the handler can
    /// echo it to the caller.  A grant whose range is no longer in the table
    /// leaves the table unchanged.
    pub fn remove_ro_buffer(&mut self, grant: RoGrant) -> (r: (usize, usize))
        requires
            old(self).wf(),
        ensures
            final(self).wf(),
            final(self).rw@ == old(self).rw@,
            final(self).ro@ == remove_first(old(self).ro@, (grant.address, grant.len)),
            r == (grant.address, grant.len),
    {
        remove_range(&mut self.ro, grant.address, grant.len);
        (grant.address, grant.len)
    }

    /// Retires a read-write grant and hands its range back.
    pub fn remove_rw_buffer(&mut self, grant: RwGrant) -> (r: (usize, usize))
        requires
            old(self).wf(),
        ensures
            final(self).wf(),
            final(self).ro@ == old(self).ro@,
            final(self).rw@ == remove_first(old(self).rw@, (grant.address, grant.len)),
            r == (grant.address, grant.len),
    {
        remove_range(&mut self.rw, grant.address, grant.len);
        (grant.address, grant.len)
    }
}

/// Overlap invariant, first half: in a well-formed database no two
/// outstanding grants of one access mode ever overlap.  The tables of
/// [`AllowDb`] satisfy `ranges_disjoint` whenever it is well-formed, so this
/// holds of every state the database's operations can reach.
pub proof fn lemma_outstanding_grants_disjoint(s: Seq<(usize, usize)>, i: int, j: int)
    requires
        ranges_disjoint(s),
        0 <= i < s.len(),
        0 <= j < s.len(),
        i != j,
    ensures
        !overlaps(s[i].0 as int, s[i].1 as int, s[j].0 as int, s[j].1 as int),
{
}

/// Non-overlapping tables taken one element shorter stay non-overlapping.
proof fn lemma_disjoint_skip1(s: Seq<(usize, usize)>)
    requires
        ranges_disjoint(s),
        s.len() > 0,
    ensures
        ranges_disjoint(s.skip(1)),
{
    let t = s.skip(1);
    assert forall|p: int, q: int|
        0 <= p < t.len() && 0 <= q < t.len() && p != q implies !overlaps(
        t[p].0 as int,
        t[p].1 as int,
        t[q].0 as int,
        t[q].1 as int,
    ) by {
        assert(t[p] == s[p + 1]);
        assert(t[q] == s[q + 1]);
    }
}

/// Overlap invariant, second half: once the one grant `g` that a range
/// collided with is removed, that range overlaps nothing that is left, so
/// granting it again must succeed.
pub proof fn lemma_regrant_after_removal(
    s: Seq<(usize, usize)>,
    g: (usize, usize),
    address: usize,
    len: usize,
)
    requires
        ranges_disjoint(s),
        forall|k: int|
            0 <= k < s.len() && s[k] != g ==> !overlaps(
                s[k].0 as int,
                s[k].1 as int,
                address as int,
                len as int,
            ),
    ensures
        range_free(remove_first(s, g), address, len),
    decreases s.len(),
{
    if s.len() == 0 {
    } else if s[0] == g {
        let t = s.skip(1);
        assert forall|k: int| 0 <= k < t.len() implies !overlaps(
            t[k].0 as int,
            t[k].1 as int,
            address as int,
            len as int,
        ) by {
            assert(t[k] == s[k + 1]);
            if s[k + 1] == g {
                // A second occurrence of a non-empty g would overlap the
                // first, which ranges_disjoint rules out.
                if g.1 > 0 {
                    assert(overlaps(s[0].0 as int, s[0].1 as int, s[k + 1].0 as int, s[k + 1].1 as int));
                    assert(false);
                }
            }
        }
    } else {
        lemma_disjoint_skip1(s);
        assert forall|k: int| 0 <= k < s.skip(1).len() && s.skip(1)[k] != g implies !overlaps(
            s.skip(1)[k].0 as int,
            s.skip(1)[k].1 as int,
            address as int,
            len as int,
        ) by {
            assert(s.skip(1)[k] == s[k + 1]);
        }
        lemma_regrant_after_removal(s.skip(1), g, address, len);
        let t = remove_first(s, g);
        assert(t == seq![s[0]] + remove_first(s.skip(1), g));
        assert forall|k: int| 0 <= k < t.len() implies !overlaps(
            t[k].0 as int,
            t[k].1 as int,
            address as int,
            len as int,
        ) by {
            if k == 0 {
                assert(t[0] == s[0]);
            } else {
                assert(t[k] == remove_first(s.skip(1), g)[k - 1]);
            }
        }
    }
}

} // verus!
