//! The in-flight send table: the arena behind the completion tokens.
//!
//! Each send that the engine accepted owns one row: a token, issued from a
//! counter that never repeats, and the promise half that will receive the
//! delivery status. Redeeming a token removes its row and surrenders the
//! promise, so a token can be redeemed at most once, and the promise that
//! comes back is exactly the one registered under that token — a
//! completion can never be routed to another send's future.

use futures::channel::oneshot::Sender;

use vstd::prelude::*;

use crate::client::DeliveryStatus;

verus! {

/// Whether the rows hold a row for token `t`.
pub open spec fn has_token(s: Seq<(u64, Sender<DeliveryStatus>)>, t: u64) -> bool {
    exists|i: int| 0 <= i < s.len() && s[i].0 == t
}

/// The row index of token `t`.
pub open spec fn token_index(s: Seq<(u64, Sender<DeliveryStatus>)>, t: u64) -> int {
    choose|i: int| 0 <= i < s.len() && s[i].0 == t
}

/// The rows as a map from token to promise half.
pub open spec fn map_of(s: Seq<(u64, Sender<DeliveryStatus>)>) -> Map<
    u64,
    Sender<DeliveryStatus>,
> {
    Map::new(|t: u64| has_token(s, t), |t: u64| s[token_index(s, t)].1)
}

/// The rows hold pairwise distinct tokens, all below `bound`.
pub open spec fn rows_wf(s: Seq<(u64, Sender<DeliveryStatus>)>, bound: u64) -> bool {
    &&& forall|i: int, j: int| 0 <= i < j < s.len() ==> s[i].0 != s[j].0
    &&& forall|i: int| 0 <= i < s.len() ==> s[i].0 < bound
}

/// Appending a row with a fresh token inserts it into the map.
proof fn lemma_map_of_push(s: Seq<(u64, Sender<DeliveryStatus>)>, t: u64, tx: Sender<
    DeliveryStatus,
>)
    requires
        forall|i: int, j: int| 0 <= i < j < s.len() ==> s[i].0 != s[j].0,
        forall|i: int| 0 <= i < s.len() ==> s[i].0 != t,
    ensures
        map_of(s.push((t, tx))) == map_of(s).insert(t, tx),
{
    let s2 = s.push((t, tx));
    assert(s2[s.len() as int].0 == t);
    assert forall|k: u64| #[trigger] has_token(s2, k) implies has_token(s, k) || k == t by {
        let a = choose|a: int| 0 <= a < s2.len() && s2[a].0 == k;
        if a < s.len() {
            assert(s[a].0 == k);
        }
    }
    assert forall|k: u64| has_token(s, k) implies #[trigger] has_token(s2, k) by {
        let a = choose|a: int| 0 <= a < s.len() && s[a].0 == k;
        assert(s2[a].0 == k);
    }
    assert forall|k: u64| #[trigger] has_token(s2, k) && k != t implies map_of(s2)[k] == map_of(
        s,
    )[k] by {
        let a = token_index(s2, k);
        assert(0 <= a < s2.len() && s2[a].0 == k);
        assert(a != s.len() as int);
        assert(s[a].0 == k);
        let b = token_index(s, k);
        assert(0 <= b < s.len() && s[b].0 == k);
        assert(a == b);
        assert(s2[a].1 == s[b].1);
    }
    assert(map_of(s2)[t] == tx) by {
        let a = token_index(s2, t);
        assert(0 <= a < s2.len() && s2[a].0 == t);
        assert(a == s.len() as int);
    }
    assert(map_of(s2) =~= map_of(s).insert(t, tx));
}

/// Removing the row of a token removes it from the map.
proof fn lemma_map_of_remove(s: Seq<(u64, Sender<DeliveryStatus>)>, i: int)
    requires
        forall|a: int, b: int| 0 <= a < b < s.len() ==> s[a].0 != s[b].0,
        0 <= i < s.len(),
    ensures
        map_of(s.remove(i)) == map_of(s).remove(s[i].0),
{
    let s2 = s.remove(i);
    s.remove_ensures(i);
    assert(forall|j: int| 0 <= j < i ==> s2[j] == s[j]);
    assert(forall|j: int| i <= j < s.len() - 1 ==> s2[j] == s[j + 1]);
    assert forall|k: u64| #[trigger] has_token(s2, k) implies has_token(s, k) && k != s[i].0 by {
        let a = choose|a: int| 0 <= a < s2.len() && s2[a].0 == k;
        if a < i {
            assert(s[a].0 == k);
            assert(a != i);
        } else {
            assert(s[a + 1].0 == k);
            assert(a + 1 != i);
        }
    }
    assert forall|k: u64| has_token(s, k) && k != s[i].0 implies #[trigger] has_token(s2, k) by {
        let a = choose|a: int| 0 <= a < s.len() && s[a].0 == k;
        assert(a != i);
        if a < i {
            assert(s2[a].0 == k);
        } else {
            assert(s2[a - 1].0 == k);
        }
    }
    assert forall|k: u64| #[trigger] has_token(s2, k) implies map_of(s2)[k] == map_of(s)[k] by {
        let a = token_index(s2, k);
        assert(0 <= a < s2.len() && s2[a].0 == k);
        let b: int = if a < i {
            a
        } else {
            a + 1
        };
        assert(s[b].0 == k);
        let c = token_index(s, k);
        assert(0 <= c < s.len() && s[c].0 == k);
        assert(c == b);
        assert(s2[a].1 == s[b].1);
    }
    assert(map_of(s2) =~= map_of(s).remove(s[i].0));
}

/// The table of in-flight sends: issues fresh completion tokens and keeps
/// each send's promise half until its completion is dispatched.
pub struct InFlight {
    next_token: u64,
    rows: Vec<(u64, Sender<DeliveryStatus>)>,
}

impl InFlight {
    /// The promise halves still waiting, by completion token.
    pub closed spec fn pending(&self) -> Map<u64, Sender<DeliveryStatus>> {
        map_of(self.rows@)
    }

    /// How many tokens have ever been issued; also the next token.
    pub closed spec fn issued(&self) -> u64 {
        self.next_token
    }

    /// How many sends are still waiting for their completion.
    pub closed spec fn pending_count(&self) -> nat {
        self.rows@.len()
    }

    /// Tokens never repeat: each row's token is below the issue counter,
    /// and no two rows share one.
    pub closed spec fn wf(&self) -> bool {
        rows_wf(self.rows@, self.next_token)
    }

    /// Every pending token was issued earlier.
    pub proof fn lemma_pending_bound(&self)
        requires
            self.wf(),
        ensures
            forall|t: u64| self.pending().contains_key(t) ==> t < self.issued(),
    {
        assert forall|t: u64| self.pending().contains_key(t) implies t < self.issued() by {
            let a = token_index(self.rows@, t);
            assert(0 <= a < self.rows@.len() && self.rows@[a].0 == t);
        }
    }

    /// An empty table.
    pub fn new() -> (f: InFlight)
        ensures
            f.wf(),
            f.pending() == Map::<u64, Sender<DeliveryStatus>>::empty(),
            f.issued() == 0,
            f.pending_count() == 0,
    {
        let f = InFlight { next_token: 0, rows: Vec::new() };
        proof {
            assert(map_of(f.rows@) =~= Map::<u64, Sender<DeliveryStatus>>::empty());
        }
        f
    }

    /// Issue a fresh token and keep the promise half under it.
    pub fn register(&mut self, tx: Sender<DeliveryStatus>) -> (t: u64)
        requires
            old(self).wf(),
            old(self).issued() < u64::MAX,
        ensures
            final(self).wf(),
            t == old(self).issued(),
            !old(self).pending().contains_key(t),
            final(self).pending() == old(self).pending().insert(t, tx),
            final(self).issued() == old(self).issued() + 1,
            final(self).pending_count() == old(self).pending_count() + 1,
    {
        let t = self.next_token;
        proof {
            if has_token(self.rows@, t) {
                let a = token_index(self.rows@, t);
                assert(0 <= a < self.rows@.len() && self.rows@[a].0 == t);
            }
            lemma_map_of_push(self.rows@, t, tx);
        }
        self.next_token = self.next_token + 1;
        self.rows.push((t, tx));
        t
    }

    /// Redeem a token: remove its row and surrender the promise half that
    /// was registered under it, or report that no such send is pending —
    /// in particular, that the token was redeemed before.
    pub fn redeem(&mut self, t: u64) -> (r: Option<Sender<DeliveryStatus>>)
        requires
            old(self).wf(),
        ensures
            final(self).wf(),
            final(self).issued() == old(self).issued(),
            old(self).pending().contains_key(t) ==> {
                &&& r == Some(old(self).pending()[t])
                &&& final(self).pending() == old(self).pending().remove(t)
                &&& final(self).pending_count() + 1 == old(self).pending_count()
            },
            !old(self).pending().contains_key(t) ==> {
                &&& r is None
                &&& final(self).pending() == old(self).pending()
                &&& final(self).pending_count() == old(self).pending_count()
            },
    {
        let n = self.rows.len();
        let mut i: usize = 0;
        while i < n
            invariant
                0 <= i <= n,
                n == self.rows@.len(),
                self == old(self),
                self.wf(),
                forall|j: int| 0 <= j < i ==> self.rows@[j].0 != t,
            decreases n - i,
        {
            if self.rows[i].0 == t {
                proof {
                    assert(has_token(self.rows@, t));
                    let c = token_index(self.rows@, t);
                    assert(0 <= c < self.rows@.len() && self.rows@[c].0 == t);
                    assert(c == i as int);
                    lemma_map_of_remove(self.rows@, i as int);
                }
                let row = self.rows.remove(i);
                return Some(row.1);
            }
            i += 1;
        }
        proof {
            if has_token(self.rows@, t) {
                let a = token_index(self.rows@, t);
                assert(0 <= a < self.rows@.len() && self.rows@[a].0 == t);
            }
        }
        None
    }

    /// How many sends are still waiting for their completion.
    pub fn len(&self) -> (n: usize)
        ensures
            n == self.pending_count(),
    {
        self.rows.len()
    }
}

} // verus!
