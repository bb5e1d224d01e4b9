//! Upcalls: the per-slot callback descriptors a Subscribe call installs, and
//! the queue of deliveries pending execution.
//!
//! When a subscription is replaced, every queued delivery for that
//! subscription is purged before the new upcall is installed: a stale
//! callback must never fire after being replaced.

use vstd::prelude::*;

verus! {

/// A callback descriptor: an optional callback reference and an opaque
/// register-sized value handed back with every delivery.  A callback
/// reference is never zero: the register value zero means "no callback".
#[derive(Clone, Copy, Debug, PartialEq, Eq)]
pub struct Upcall {
    pub fn_pointer: Option<usize>,
    pub data: usize,
}

/// The zero register value is reserved to mean "no callback", so a present
/// callback reference is never zero.
pub open spec fn upcall_wf(u: Upcall) -> bool {
    match u.fn_pointer {
        Some(f) => f != 0,
        None => true,
    }
}

/// A slot is well formed when it is empty or holds a well-formed upcall.
pub open spec fn upcall_slot_wf(o: Option<Upcall>) -> bool {
    match o {
        Some(u) => upcall_wf(u),
        None => true,
    }
}

/// Identifies a logical subscription — a (driver, slot) pair — independent
/// of the upcall it currently holds.
#[derive(Clone, Copy, Debug, PartialEq, Eq)]
pub struct UpcallId {
    pub driver_number: u32,
    pub subscribe_number: u32,
}

/// A callback invocation awaiting delivery.
#[derive(Clone, Copy, Debug, PartialEq, Eq)]
pub struct QueuedUpcall {
    pub id: UpcallId,
    pub arg0: u32,
    pub arg1: u32,
    pub arg2: u32,
}

/// The pending-delivery queue with every entry for subscription `id` taken
/// out; the other entries keep their order.
pub open spec fn purged(s: Seq<QueuedUpcall>, id: UpcallId) -> Seq<QueuedUpcall>
    decreases s.len(),
{
    if s.len() == 0 {
        s
    } else if s[0].id == id {
        purged(s.skip(1), id)
    } else {
        seq![s[0]] + purged(s.skip(1), id)
    }
}

/// Takes every pending delivery for subscription `id` out of the queue.
pub fn purge_queue(q: &mut Vec<QueuedUpcall>, id: UpcallId)
    ensures
        final(q)@ == purged(old(q)@, id),
{
    let ghost orig: Seq<QueuedUpcall> = q@;
    let mut out: Vec<QueuedUpcall> = Vec::new();
    let mut i: usize = 0;
    proof {
        assert(orig.skip(0) =~= orig);
        assert(out@ + purged(orig, id) =~= purged(orig, id));
    }
    while i < q.len()
        invariant
            i <= q.len(),
            q@ == orig,
            purged(orig, id) == out@ + purged(orig.skip(i as int), id),
        decreases q.len() - i,
    {
        let e = q[i];
        proof {
            assert(orig.skip(i as int)[0] == orig[i as int]);
            assert(orig.skip(i as int).skip(1) =~= orig.skip(i as int + 1));
        }
        if e.id.driver_number == id.driver_number && e.id.subscribe_number == id.subscribe_number {
            proof {
                assert(e.id == id);
                assert(purged(orig.skip(i as int), id) == purged(orig.skip(i as int + 1), id));
            }
        } else {
            out.push(e);
            proof {
                assert(out@ + purged(orig.skip(i as int + 1), id) =~= purged(orig, id));
            }
        }
        i += 1;
    }
    proof {
        assert(orig.skip(orig.len() as int).len() == 0);
        assert(out@ + purged(orig.skip(orig.len() as int), id) =~= out@);
    }
    *q = out;
}

/// Replace-purges invariant: a purged queue holds no delivery for the purged
/// subscription.  Together with the Subscribe handler's promise that the
/// queue it leaves behind is `purged(queue, id)` before the new upcall is
/// installed, a replaced subscription can never receive a stale delivery.
pub proof fn lemma_purged_no_match(s: Seq<QueuedUpcall>, id: UpcallId)
    ensures
        forall|k: int| 0 <= k < purged(s, id).len() ==> purged(s, id)[k].id != id,
    decreases s.len(),
{
    if s.len() == 0 {
    } else {
        lemma_purged_no_match(s.skip(1), id);
        if s[0].id == id {
            let t = purged(s, id);
            assert(t == purged(s.skip(1), id));
            assert forall|k: int| 0 <= k < t.len() implies t[k].id != id by {
                assert(t[k] == purged(s.skip(1), id)[k]);
            }
        } else {
            let t = purged(s, id);
            assert forall|k: int| 0 <= k < t.len() implies t[k].id != id by {
                if k == 0 {
                    assert(t[0] == s[0]);
                } else {
                    assert(t[k] == purged(s.skip(1), id)[k - 1]);
                }
            }
        }
    }
}

/// Purging keeps every delivery for other subscriptions: an entry whose id
/// differs from the purged id is in the purged queue exactly when it was in
/// the original queue.
pub proof fn lemma_purged_keeps_others(s: Seq<QueuedUpcall>, id: UpcallId, e: QueuedUpcall)
    requires
        e.id != id,
    ensures
        purged(s, id).contains(e) <==> s.contains(e),
    decreases s.len(),
{
    if s.len() == 0 {
    } else {
        lemma_purged_keeps_others(s.skip(1), id, e);
        if s[0].id == id {
            assert(s.contains(e) <==> s.skip(1).contains(e)) by {
                if s.contains(e) {
                    let w = choose|w: int| 0 <= w < s.len() && s[w] == e;
                    assert(w != 0);
                    assert(s.skip(1)[w - 1] == e);
                }
                if s.skip(1).contains(e) {
                    let w = choose|w: int| 0 <= w < s.skip(1).len() && s.skip(1)[w] == e;
                    assert(s[w + 1] == e);
                }
            }
        } else {
            let t = purged(s, id);
            assert(t == seq![s[0]] + purged(s.skip(1), id));
            assert(t.contains(e) <==> s.contains(e)) by {
                if t.contains(e) {
                    let w = choose|w: int| 0 <= w < t.len() && t[w] == e;
                    if w == 0 {
                        assert(s[0] == e);
                    } else {
                        assert(purged(s.skip(1), id)[w - 1] == e);
                        assert(s.skip(1).contains(e));
                        let v = choose|v: int| 0 <= v < s.skip(1).len() && s.skip(1)[v] == e;
                        assert(s[v + 1] == e);
                    }
                }
                if s.contains(e) {
                    let w = choose|w: int| 0 <= w < s.len() && s[w] == e;
                    if w == 0 {
                        assert(t[0] == e);
                    } else {
                        assert(s.skip(1)[w - 1] == e);
                        assert(purged(s.skip(1), id).contains(e));
                        let v = choose|v: int|
                            0 <= v < purged(s.skip(1), id).len() && purged(s.skip(1), id)[v] == e;
                        assert(t[v + 1] == e);
                    }
                }
            }
        }
    }
}

} // verus!
