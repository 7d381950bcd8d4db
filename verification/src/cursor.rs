//! The newest message of a mailbox, and whether it has been handled.

use vstd::prelude::*;

verus! {

/// The greatest of the identifiers, `None` where there are none.
pub open spec fn newest(ids: Seq<u32>) -> Option<u32>
    decreases ids.len(),
{
    if ids.len() == 0 {
        None
    } else {
        match newest(ids.drop_last()) {
            Some(m) if m >= ids.last() => Some(m),
            _ => Some(ids.last()),
        }
    }
}

/// `newest` is `None` exactly on the empty sequence; otherwise it is an
/// element of the sequence that no element exceeds.
pub proof fn newest_is_greatest(ids: Seq<u32>)
    ensures
        newest(ids) is None <==> ids.len() == 0,
        newest(ids) matches Some(m) ==> ids.contains(m) && forall|i: int|
            0 <= i < ids.len() ==> ids[i] <= m,
    decreases ids.len(),
{
    if ids.len() > 0 {
        let front = ids.drop_last();
        newest_is_greatest(front);
        let m = newest(ids)->0;
        if m == ids.last() {
            assert(ids[ids.len() - 1] == m);
        } else {
            let i = choose|i: int| 0 <= i < front.len() && front[i] == m;
            assert(ids[i] == m);
        }
        assert forall|i: int| 0 <= i < ids.len() implies ids[i] <= m by {
            if i < front.len() {
                assert(front[i] == ids[i]);
            }
        }
    }
}

/// The order in which a mailbox lists its identifiers does not matter: two
/// listings with the same elements have the same newest identifier.
pub proof fn newest_ignores_order(a: Seq<u32>, b: Seq<u32>)
    requires
        forall|x: u32| a.contains(x) <==> b.contains(x),
    ensures
        newest(a) == newest(b),
{
    newest_is_greatest(a);
    newest_is_greatest(b);
    if a.len() == 0 {
        if b.len() > 0 {
            assert(b.contains(b[0]));
        }
    } else if b.len() == 0 {
        assert(a.contains(a[0]));
    } else {
        let m = newest(a)->0;
        let n = newest(b)->0;
        assert(b.contains(m));
        assert(a.contains(n));
    }
}

/// Finds the newest identifier of a mailbox listing.
pub fn newest_id(ids: &Vec<u32>) -> (r: Option<u32>)
    ensures
        r == newest(ids@),
        r is None <==> ids@.len() == 0,
        r matches Some(m) ==> ids@.contains(m) && forall|i: int|
            0 <= i < ids@.len() ==> ids@[i] <= m,
{
    let mut best: Option<u32> = None;
    let mut i: usize = 0;
    assert(ids@.take(0) =~= Seq::empty());
    while i < ids.len()
        invariant
            i <= ids.len(),
            best == newest(ids@.take(i as int)),
        decreases ids.len() - i,
    {
        assert(ids@.take(i + 1).drop_last() =~= ids@.take(i as int));
        let id: u32 = ids[i];
        best =
        match best {
            Some(m) if m >= id => Some(m),
            _ => Some(id),
        };
        i += 1;
    }
    assert(ids@.take(ids.len() as int) =~= ids@);
    proof {
        newest_is_greatest(ids@);
    }
    best
}

/// Whether a mailbox whose newest identifier is `found` holds a message
/// that a watcher with cursor `last_seen` has not handled.
pub open spec fn is_unseen(last_seen: Option<u32>, found: Option<u32>) -> bool {
    found is Some && last_seen != found
}

/// Compares the newest identifier of the mailbox with the cursor. An empty
/// mailbox, and one whose newest message is the one last handled, hold
/// nothing new.
pub fn unseen(last_seen: Option<u32>, found: Option<u32>) -> (r: Option<u32>)
    ensures
        r == (if is_unseen(last_seen, found) {
            found
        } else {
            None
        }),
{
    match found {
        Some(id) => match last_seen {
            Some(seen) => if seen == id {
                None
            } else {
                Some(id)
            },
            None => Some(id),
        },
        None => None,
    }
}

} // verus!
