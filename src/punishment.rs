//! Punishments and which of them are in force.
use vstd::prelude::*;

use crate::player::SimplePlayer;

verus! {

/// A punishment issued to a player. Times are milliseconds since the Unix
/// epoch; a punishment without an expiry lasts until it is reverted.
#[derive(Debug, Clone)]
pub struct Punishment {
    pub id: String,
    pub target: SimplePlayer,
    pub issued_at: u64,
    pub expires_at: Option<u64>,
    pub reverted: bool,
}

impl Punishment {
    /// Whether the punishment is in force at `now`: issued, not yet expired,
    /// and not reverted.
    pub open spec fn active_at(&self, now: u64) -> bool {
        &&& !self.reverted
        &&& self.issued_at <= now
        &&& match self.expires_at {
            Some(e) => now < e,
            None => true,
        }
    }

    /// Whether the punishment is in force at `now`.
    pub fn is_active(&self, now: u64) -> (r: bool)
        ensures
            r == self.active_at(now),
    {
        !self.reverted && self.issued_at <= now && match self.expires_at {
            Some(e) => now < e,
            None => true,
        }
    }
}

/// `p` placed into `s` after every punishment issued no later than it.
pub open spec fn insert_by_issue(s: Seq<Punishment>, p: Punishment) -> Seq<Punishment>
    decreases s.len(),
{
    if s.len() == 0 || s.last().issued_at <= p.issued_at {
        s.push(p)
    } else {
        insert_by_issue(s.drop_last(), p).push(s.last())
    }
}

/// The punishments of `s` in force at `now`, ordered by issue time; those
/// issued at the same time keep their order.
pub open spec fn active_by_issue(s: Seq<Punishment>, now: u64) -> Seq<Punishment>
    decreases s.len(),
{
    if s.len() == 0 {
        Seq::empty()
    } else {
        let r = active_by_issue(s.drop_last(), now);
        if s.last().active_at(now) {
            insert_by_issue(r, s.last())
        } else {
            r
        }
    }
}

/// Whether `s` is ordered by issue time.
pub open spec fn ordered_by_issue(s: Seq<Punishment>) -> bool {
    forall|i: int, j: int| 0 <= i < j < s.len() ==> s[i].issued_at <= s[j].issued_at
}

proof fn lemma_insert_tail(s: Seq<Punishment>, p: Punishment, k: int)
    requires
        0 <= k <= s.len(),
        forall|i: int| k <= i < s.len() ==> s[i].issued_at > p.issued_at,
    ensures
        insert_by_issue(s, p) == insert_by_issue(s.subrange(0, k), p) + s.subrange(k, s.len() as int),
    decreases s.len() - k,
{
    if k == s.len() {
        assert(s.subrange(0, k) =~= s);
        assert(insert_by_issue(s, p) + s.subrange(k, s.len() as int) =~= insert_by_issue(s, p));
    } else {
        let t = s.drop_last();
        lemma_insert_tail(t, p, k);
        assert(t.subrange(0, k) =~= s.subrange(0, k));
        assert(insert_by_issue(s, p) == insert_by_issue(t, p).push(s.last()));
        assert(insert_by_issue(t, p) == insert_by_issue(s.subrange(0, k), p) + t.subrange(k, t.len() as int));
        assert((insert_by_issue(s.subrange(0, k), p) + t.subrange(k, t.len() as int)).push(s.last())
            =~= insert_by_issue(s.subrange(0, k), p) + s.subrange(k, s.len() as int));
    }
}

proof fn lemma_insert_ordered(s: Seq<Punishment>, p: Punishment)
    requires
        ordered_by_issue(s),
    ensures
        ordered_by_issue(insert_by_issue(s, p)),
        insert_by_issue(s, p).len() == s.len() + 1,
        forall|i: int| 0 <= i < insert_by_issue(s, p).len() ==>
            #[trigger] insert_by_issue(s, p)[i] == p || s.contains(insert_by_issue(s, p)[i]),
    decreases s.len(),
{
    if s.len() == 0 || s.last().issued_at <= p.issued_at {
        let r = s.push(p);
        assert forall|i: int| 0 <= i < r.len() implies #[trigger] r[i] == p || s.contains(r[i]) by {
            if i < s.len() {
                assert(r[i] == s[i]);
            }
        }
    } else {
        let t = s.drop_last();
        assert(ordered_by_issue(t));
        lemma_insert_ordered(t, p);
        let m = insert_by_issue(t, p);
        let r = m.push(s.last());
        assert forall|i: int| 0 <= i < m.len() implies #[trigger] m[i].issued_at <= s.last().issued_at by {
            if m[i] != p {
                let j = choose|j: int| 0 <= j < t.len() && t[j] == m[i];
                assert(s[j] == t[j]);
            }
        }
        assert forall|i: int, j: int| 0 <= i < j < r.len() implies r[i].issued_at <= r[j].issued_at by {
            if j < m.len() {
                assert(r[i] == m[i] && r[j] == m[j]);
            } else {
                assert(r[i] == m[i]);
            }
        }
        assert forall|i: int| 0 <= i < r.len() implies #[trigger] r[i] == p || s.contains(r[i]) by {
            if i < m.len() {
                assert(r[i] == m[i]);
                if m[i] != p {
                    let j = choose|j: int| 0 <= j < t.len() && t[j] == m[i];
                    assert(s[j] == t[j]);
                }
            } else {
                assert(s[s.len() - 1] == s.last());
            }
        }
    }
}

/// The punishments in force are ordered by issue time, and each is one of the
/// given punishments that is in force.
pub proof fn lemma_active_by_issue(s: Seq<Punishment>, now: u64)
    ensures
        ordered_by_issue(active_by_issue(s, now)),
        forall|i: int| 0 <= i < active_by_issue(s, now).len() ==>
            s.contains(#[trigger] active_by_issue(s, now)[i]) && active_by_issue(s, now)[i].active_at(now),
    decreases s.len(),
{
    if s.len() > 0 {
        let t = s.drop_last();
        lemma_active_by_issue(t, now);
        let r = active_by_issue(t, now);
        if s.last().active_at(now) {
            lemma_insert_ordered(r, s.last());
            let q = insert_by_issue(r, s.last());
            assert forall|i: int| 0 <= i < q.len() implies s.contains(#[trigger] q[i]) && q[i].active_at(now) by {
                if q[i] == s.last() {
                    assert(s[s.len() - 1] == s.last());
                } else {
                    let j = choose|j: int| 0 <= j < r.len() && r[j] == q[i];
                    let k = choose|k: int| 0 <= k < t.len() && t[k] == r[j];
                    assert(s[k] == t[k]);
                }
            }
        } else {
            assert forall|i: int| 0 <= i < r.len() implies s.contains(#[trigger] r[i]) && r[i].active_at(now) by {
                let k = choose|k: int| 0 <= k < t.len() && t[k] == r[i];
                assert(s[k] == t[k]);
            }
        }
    }
}

/// The punishments of `punishments` in force at `now`, ordered by issue time;
/// those issued at the same time keep their order.
pub fn active_punishments(punishments: Vec<Punishment>, now: u64) -> (r: Vec<Punishment>)
    ensures
        r@ == active_by_issue(punishments@, now),
{
    let ghost all = punishments@;
    let mut rest = punishments;
    let total = rest.len();
    let mut out: Vec<Punishment> = Vec::new();
    let mut k: usize = 0;
    assert(all.subrange(0, 0) =~= Seq::<Punishment>::empty());
    while rest.len() > 0
        invariant
            k <= all.len(),
            all.len() == total,
            rest@ == all.subrange(k as int, all.len() as int),
            out@ == active_by_issue(all.subrange(0, k as int), now),
        decreases rest.len(),
    {
        let p = rest.remove(0);
        assert(all.subrange(0, k + 1).drop_last() =~= all.subrange(0, k as int));
        if p.is_active(now) {
            let mut pos = out.len();
            while pos > 0 && out[pos - 1].issued_at > p.issued_at
                invariant
                    pos <= out@.len(),
                    forall|i: int| pos <= i < out@.len() ==> out@[i].issued_at > p.issued_at,
                decreases pos,
            {
                pos = pos - 1;
            }
            proof {
                let s = out@;
                lemma_insert_tail(s, p, pos as int);
                let h = s.subrange(0, pos as int);
                if pos > 0 {
                    assert(h.last() == s[pos - 1]);
                }
                assert(insert_by_issue(h, p) == h.push(p));
                assert(h.push(p) + s.subrange(pos as int, s.len() as int) =~= s.insert(pos as int, p));
            }
            out.insert(pos, p);
        }
        k = k + 1;
        assert(rest@ =~= all.subrange(k as int, all.len() as int));
    }
    assert(all.subrange(0, all.len() as int) =~= all);
    out
}

} // verus!
