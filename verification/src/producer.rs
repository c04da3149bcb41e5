//! Producer implementations.
//!
//! A [`Producer`] is the facade over one engine client: it hands out
//! topic builders, enqueues sends, and serves completion records. Each
//! send that the engine accepts is paired with a fresh completion token
//! and a single-use promise/future pair; the promise waits in the
//! in-flight table under the token, the future goes back to the caller.
//! The delivery callback — [`Producer::dispatch`] — redeems the token of
//! a completion record exactly once and fulfils the promise registered
//! under it with the record's delivery status, so a completion can never
//! be duplicated nor routed to another send's future. A ghost delivery
//! history records every completion served, and well-formedness ties it
//! to the token counter: no token appears twice.

use std::sync::Arc;

use futures::channel::oneshot::{Receiver, Sender};

use vstd::prelude::*;

use crate::channel::{delivery_channel, fulfil, try_take, DeliveryPoll};
use crate::client::{Client, DeliveryEvent, DeliveryStatus, Topic, TopicBuilder};
use crate::error::{errno_to_resp_err, resp_err_of_errno, Error};
use crate::pending::InFlight;

verus! {

/// A future that will receive a `DeliveryStatus` containing information
/// on the delivery status of the message.
#[derive(Debug)]
pub struct DeliveryFuture {
    token: u64,
    rx: Receiver<DeliveryStatus>,
}

impl DeliveryFuture {
    /// The completion token of the send this future belongs to.
    pub closed spec fn spec_token(&self) -> u64 {
        self.token
    }

    /// The completion token of the send this future belongs to.
    pub fn token(&self) -> (t: u64)
        ensures
            t == self.spec_token(),
    {
        self.token
    }

    /// Poll the future half: the delivery is still pending, its status
    /// arrived, or the promise was dropped unfulfilled.
    pub fn poll(&mut self) -> (r: DeliveryPoll)
        ensures
            final(self).spec_token() == old(self).spec_token(),
    {
        try_take(&mut self.rx)
    }

    /// Surrender the underlying future half, for embeddings that drive
    /// it with an executor instead of polling.
    pub fn into_receiver(self) -> Receiver<DeliveryStatus> {
        self.rx
    }
}

/// What one completion record does to the pending table and the delivery
/// history: a pending token is redeemed — removed, its record appended —
/// and any other record is ignored.
pub open spec fn apply_event(
    m: Map<u64, Sender<DeliveryStatus>>,
    h: Seq<DeliveryEvent>,
    ev: DeliveryEvent,
) -> (Map<u64, Sender<DeliveryStatus>>, Seq<DeliveryEvent>) {
    if m.contains_key(ev.token) {
        (m.remove(ev.token), h.push(ev))
    } else {
        (m, h)
    }
}

/// What a whole batch of completion records does, served in order.
pub open spec fn run_events(
    m: Map<u64, Sender<DeliveryStatus>>,
    h: Seq<DeliveryEvent>,
    evs: Seq<DeliveryEvent>,
) -> (Map<u64, Sender<DeliveryStatus>>, Seq<DeliveryEvent>)
    decreases evs.len(),
{
    if evs.len() <= 0 {
        (m, h)
    } else {
        run_events(apply_event(m, h, evs[0]).0, apply_event(m, h, evs[0]).1, evs.drop_first())
    }
}

/// Serving one more record after a batch serves the batch, then the
/// record.
proof fn lemma_run_events_snoc(
    m: Map<u64, Sender<DeliveryStatus>>,
    h: Seq<DeliveryEvent>,
    s: Seq<DeliveryEvent>,
    ev: DeliveryEvent,
)
    ensures
        run_events(m, h, s.push(ev)) == apply_event(
            run_events(m, h, s).0,
            run_events(m, h, s).1,
            ev,
        ),
    decreases s.len(),
{
    let sp = s.push(ev);
    if s.len() == 0 {
        assert(sp[0] == ev);
        assert(sp.drop_first() =~= Seq::<DeliveryEvent>::empty());
        assert(run_events(m, h, s) == (m, h));
        let step = apply_event(m, h, ev);
        assert(run_events(step.0, step.1, sp.drop_first()) == step);
        assert(run_events(m, h, sp) == step);
    } else {
        assert(sp[0] == s[0]);
        assert(sp.drop_first() =~= s.drop_first().push(ev));
        let step = apply_event(m, h, s[0]);
        lemma_run_events_snoc(step.0, step.1, s.drop_first(), ev);
        assert(run_events(m, h, sp) == run_events(step.0, step.1, sp.drop_first()));
        assert(run_events(m, h, s) == run_events(step.0, step.1, s.drop_first()));
    }
}

/// Contains a reference counted producer client. The facade shares the
/// engine client through a counted handle, so topics derived from it keep
/// the client alive; the client is destroyed only when the last handle is
/// gone.
pub struct Producer {
    client: Arc<Client>,
    inflight: InFlight,
    history: Ghost<Seq<DeliveryEvent>>,
}

impl Producer {
    /// The shared engine client.
    pub closed spec fn spec_client(&self) -> Arc<Client> {
        self.client
    }

    /// The promise halves still waiting, by completion token.
    pub closed spec fn pending(&self) -> Map<u64, Sender<DeliveryStatus>> {
        self.inflight.pending()
    }

    /// How many completion tokens have ever been issued.
    pub closed spec fn issued(&self) -> u64 {
        self.inflight.issued()
    }

    /// How many sends are still waiting for their completion.
    pub closed spec fn pending_count(&self) -> nat {
        self.inflight.pending_count()
    }

    /// Every completion record served so far, in order.
    pub closed spec fn history(&self) -> Seq<DeliveryEvent> {
        self.history@
    }

    /// Tokens never repeat: the in-flight table is well-formed, and the
    /// history holds pairwise distinct tokens that were issued earlier
    /// and are no longer pending.
    pub closed spec fn wf(&self) -> bool {
        &&& self.inflight.wf()
        &&& forall|i: int, j: int|
            0 <= i < j < self.history@.len() ==> self.history@[i].token != self.history@[j].token
        &&& forall|i: int|
            0 <= i < self.history@.len() ==> self.history@[i].token < self.inflight.issued()
        &&& forall|i: int|
            0 <= i < self.history@.len() ==> !self.inflight.pending().contains_key(
                self.history@[i].token,
            )
    }

    /// Wrap an engine client into a producer facade.
    pub fn new(client: Client) -> (p: Producer)
        ensures
            p.wf(),
            p.spec_client() == client,
            p.pending() == Map::<u64, Sender<DeliveryStatus>>::empty(),
            p.issued() == 0,
            p.history() == Seq::<DeliveryEvent>::empty(),
            p.pending_count() == 0,
    {
        Producer { client: Arc::new(client), inflight: InFlight::new(), history: Ghost(Seq::empty()) }
    }

    /// Return a topic builder associated to the producer.
    pub fn get_topic(&self, topic_name: &str) -> (b: TopicBuilder)
        ensures
            b.name@ == topic_name@,
            b.conf@.len() == 0,
            b.client == self.spec_client(),
    {
        TopicBuilder::new(&self.client, topic_name)
    }

    /// Send a copy of the message and key provided: a fresh promise/future
    /// pair is created, the promise half waits under a fresh completion
    /// token, and the engine is asked to enqueue the message — copying
    /// payload and key into its own buffers and keeping the token.
    /// `enqueue_errno` is the engine's immediate answer: zero when the
    /// message was enqueued, else the errno-equivalent code of the
    /// rejection. On rejection the promise is reclaimed and discarded at
    /// once — nothing stays pending, no future is produced — and the
    /// translated code is returned as the error.
    #[allow(unused_variables)]
    pub fn send_copy(
        &mut self,
        topic: &Topic,
        payload: Option<&Vec<u8>>,
        key: Option<&Vec<u8>>,
        enqueue_errno: i32,
    ) -> (r: Result<DeliveryFuture, Error>)
        requires
            old(self).wf(),
            old(self).issued() < u64::MAX,
        ensures
            final(self).wf(),
            final(self).spec_client() == old(self).spec_client(),
            final(self).history() == old(self).history(),
            ({
                match r {
                    Ok(f) => {
                        &&& enqueue_errno == 0
                        &&& f.spec_token() == old(self).issued()
                        &&& !old(self).pending().contains_key(f.spec_token())
                        &&& final(self).issued() == old(self).issued() + 1
                        &&& final(self).pending().dom() == old(self).pending().dom().insert(
                            f.spec_token(),
                        )
                        &&& forall|t: u64|
                            old(self).pending().contains_key(t) ==> final(self).pending()[t] == old(
                                self,
                            ).pending()[t]
                        &&& final(self).pending_count() == old(self).pending_count() + 1
                    },
                    Err(e) => {
                        &&& enqueue_errno != 0
                        &&& e == Error::MessageProduction(resp_err_of_errno(enqueue_errno))
                        &&& final(self).pending() == old(self).pending()
                        &&& final(self).issued() == old(self).issued()
                        &&& final(self).pending_count() == old(self).pending_count()
                    },
                }
            }),
    {
        let (tx, rx) = delivery_channel();
        if enqueue_errno != 0 {
            let kafka_error = errno_to_resp_err(enqueue_errno);
            Err(Error::MessageProduction(kafka_error))
        } else {
            let t = self.inflight.register(tx);
            proof {
                assert forall|i: int| 0 <= i < self.history@.len() implies !self.inflight.pending()
                    .contains_key(self.history@[i].token) by {
                    assert(self.history@[i].token < old(self).issued());
                }
            }
            Ok(DeliveryFuture { token: t, rx })
        }
    }

    /// The delivery callback: redeem the completion token carried by the
    /// record, exactly once, and fulfil the promise registered under that
    /// token — and no other — with the record's delivery status. A record
    /// whose token is not pending, in particular one whose token was
    /// already redeemed, changes nothing. Returns whether a pending send
    /// was served.
    pub fn dispatch(&mut self, ev: DeliveryEvent) -> (delivered: bool)
        requires
            old(self).wf(),
        ensures
            final(self).wf(),
            final(self).issued() == old(self).issued(),
            final(self).spec_client() == old(self).spec_client(),
            delivered == old(self).pending().contains_key(ev.token),
            (final(self).pending(), final(self).history()) == apply_event(
                old(self).pending(),
                old(self).history(),
                ev,
            ),
    {
        proof {
            self.inflight.lemma_pending_bound();
        }
        match self.inflight.redeem(ev.token) {
            Some(tx) => {
                let status = ev.status();
                fulfil(tx, status);
                self.history = Ghost(self.history@.push(ev));
                true
            },
            None => false,
        }
    }

    /// Poll the producer: serve each completion record the engine's
    /// event-processing step produced, in order. Regular calls to `poll`
    /// are required to process the events and execute the message
    /// delivery callbacks. Returns the number of records served.
    pub fn poll(&mut self, events: &Vec<DeliveryEvent>) -> (n: usize)
        requires
            old(self).wf(),
        ensures
            final(self).wf(),
            final(self).issued() == old(self).issued(),
            final(self).spec_client() == old(self).spec_client(),
            n == events@.len(),
            (final(self).pending(), final(self).history()) == run_events(
                old(self).pending(),
                old(self).history(),
                events@,
            ),
    {
        let n = events.len();
        let mut i: usize = 0;
        while i < n
            invariant
                0 <= i <= n,
                n == events@.len(),
                self.wf(),
                self.issued() == old(self).issued(),
                self.spec_client() == old(self).spec_client(),
                (self.pending(), self.history()) == run_events(
                    old(self).pending(),
                    old(self).history(),
                    events@.take(i as int),
                ),
            decreases n - i,
        {
            let ev = events[i];
            proof {
                lemma_run_events_snoc(
                    old(self).pending(),
                    old(self).history(),
                    events@.take(i as int),
                    events@[i as int],
                );
                assert(events@.take(i as int).push(events@[i as int]) =~= events@.take(
                    i as int + 1,
                ));
            }
            self.dispatch(ev);
            i += 1;
        }
        proof {
            assert(events@.take(n as int) =~= events@);
        }
        n
    }

    /// How many sends are still waiting for their completion.
    pub fn in_flight(&self) -> (n: usize)
        ensures
            n == self.pending_count(),
    {
        self.inflight.len()
    }
}

/// The tokens a batch of completion records carries.
pub open spec fn event_tokens(evs: Seq<DeliveryEvent>) -> Set<u64> {
    Set::new(|t: u64| exists|k: int| 0 <= k < evs.len() && evs[k].token == t)
}

/// Law: a completion token is redeemed at most once — the delivery
/// history of a well-formed producer never carries two records with the
/// same token, however many records were served.
pub proof fn lemma_redeemed_at_most_once(p: &Producer, i: int, j: int)
    requires
        p.wf(),
        0 <= i < p.history().len(),
        0 <= j < p.history().len(),
        i != j,
    ensures
        p.history()[i].token != p.history()[j].token,
{
}

/// Law: a token that was redeemed is never pending again, so a later
/// completion record carrying it is ignored.
pub proof fn lemma_redeemed_never_pending(p: &Producer, i: int)
    requires
        p.wf(),
        0 <= i < p.history().len(),
    ensures
        !p.pending().contains_key(p.history()[i].token),
{
}

/// Law: a completion record whose token is not pending changes nothing —
/// no promise is fulfilled and no history is written.
pub proof fn lemma_stale_record_ignored(
    m: Map<u64, Sender<DeliveryStatus>>,
    h: Seq<DeliveryEvent>,
    ev: DeliveryEvent,
)
    requires
        !m.contains_key(ev.token),
    ensures
        apply_event(m, h, ev) == (m, h),
{
}

/// Law: serving records for pairwise distinct, pending tokens serves all
/// of them — exactly those records are appended to the delivery history,
/// in order, and exactly those tokens leave the pending table.
pub proof fn lemma_all_pending_served(
    m: Map<u64, Sender<DeliveryStatus>>,
    h: Seq<DeliveryEvent>,
    evs: Seq<DeliveryEvent>,
)
    requires
        forall|k: int| 0 <= k < evs.len() ==> m.contains_key(#[trigger] evs[k].token),
        forall|k: int, l: int| 0 <= k < l < evs.len() ==> evs[k].token != evs[l].token,
    ensures
        run_events(m, h, evs).1 == h + evs,
        run_events(m, h, evs).0.dom() == m.dom().difference(event_tokens(evs)),
    decreases evs.len(),
{
    if evs.len() == 0 {
        assert(h + evs =~= h);
        assert(event_tokens(evs) =~= Set::<u64>::empty());
        assert(m.dom().difference(event_tokens(evs)) =~= m.dom());
    } else {
        let ev0 = evs[0];
        let m1 = m.remove(ev0.token);
        let h1 = h.push(ev0);
        let tail = evs.drop_first();
        assert forall|k: int| 0 <= k < tail.len() implies m1.contains_key(
            #[trigger] tail[k].token,
        ) by {
            assert(tail[k] == evs[k + 1]);
            assert(evs[k + 1].token != ev0.token);
        }
        assert forall|k: int, l: int| 0 <= k < l < tail.len() implies tail[k].token
            != tail[l].token by {
            assert(tail[k] == evs[k + 1]);
            assert(tail[l] == evs[l + 1]);
        }
        lemma_all_pending_served(m1, h1, tail);
        assert(h1 + tail =~= h + evs);
        assert(m1.dom().difference(event_tokens(tail)) =~= m.dom().difference(event_tokens(evs)))
            by {
            assert forall|t: u64| event_tokens(evs).contains(t) implies event_tokens(tail).contains(
                t,
            ) || t == ev0.token by {
                let k = choose|k: int| 0 <= k < evs.len() && evs[k].token == t;
                if k > 0 {
                    assert(tail[k - 1].token == t);
                }
            }
            assert forall|t: u64| event_tokens(tail).contains(t) implies event_tokens(evs).contains(
                t,
            ) by {
                let k = choose|k: int| 0 <= k < tail.len() && tail[k].token == t;
                assert(evs[k + 1].token == t);
            }
            assert(event_tokens(evs).contains(ev0.token));
        }
    }
}

} // verus!
