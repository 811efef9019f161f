//! Live fan-out of captured output lines: a registry of per-subscriber
//! bounded queues. Publishing appends a line to every subscriber that has
//! room and drops the newest line for a subscriber whose queue is full,
//! so a stalled consumer can never block the producer. A subscriber only
//! ever receives lines published after it subscribed; history predating a
//! subscription is served by the backlog instead.

use vstd::prelude::*;

verus! {

/// One subscriber's bounded queue of pending lines, together with the
/// ghost record of which published lines were ever delivered to it.
pub struct Subscriber {
    /// Pending lines, oldest first; never grows past `cap`.
    queue: Vec<String>,
    /// Bound on the pending queue.
    cap: usize,
    /// How many lines had been published when this subscriber was created.
    birth: Ghost<int>,
    /// Indices (into the published history) of every line ever enqueued
    /// here, in delivery order.
    delivered: Ghost<Seq<int>>,
    /// How many of `delivered` have already been taken by the consumer.
    taken: Ghost<int>,
}

impl Subscriber {
    spec fn wf(self, published: Seq<Seq<char>>, cap: int) -> bool {
        &&& self.cap == cap
        &&& 0 <= self.birth@ <= published.len()
        &&& 0 <= self.taken@ <= self.delivered@.len()
        &&& self.queue@.len() + self.taken@ == self.delivered@.len()
        &&& self.queue@.len() <= cap
        &&& forall|i: int|
            0 <= i < self.delivered@.len() ==> self.birth@ <= #[trigger] self.delivered@[i]
                < published.len()
        &&& forall|i: int, j: int|
            0 <= i < j < self.delivered@.len() ==> #[trigger] self.delivered@[i]
                < #[trigger] self.delivered@[j]
        &&& forall|i: int|
            0 <= i < self.queue@.len() ==> (#[trigger] self.queue@[i])@
                == published[self.delivered@[self.taken@ + i]]
    }
}

/// What publishing line number `idx` does to one subscriber: the line is
/// appended if there is room, otherwise the newest line is dropped for
/// this subscriber only; nothing else about the subscriber changes.
spec fn delivered_one_sub(o: Subscriber, s: Subscriber, idx: int, line: Seq<char>) -> bool {
    &&& s.cap == o.cap
    &&& s.birth@ == o.birth@
    &&& s.taken@ == o.taken@
    &&& if o.queue@.len() < o.cap {
        s.delivered@ == o.delivered@.push(idx) && s.queue.deep_view()
            == o.queue.deep_view().push(line)
    } else {
        s.delivered@ == o.delivered@ && s.queue@ == o.queue@
    }
}

/// The fan-out registry: the ghost history of everything published, and
/// the live subscribers.
pub struct FanOut {
    subs: Vec<Subscriber>,
    cap: usize,
    published: Ghost<Seq<Seq<char>>>,
}

impl FanOut {
    /// Every line ever published through this fan-out, in order.
    pub closed spec fn history(self) -> Seq<Seq<char>> {
        self.published@
    }

    pub closed spec fn sub_count(self) -> int {
        self.subs@.len() as int
    }

    pub closed spec fn capacity(self) -> int {
        self.cap as int
    }

    /// How many lines had been published when subscriber `s` was created.
    pub closed spec fn birth_of(self, s: int) -> int {
        self.subs@[s].birth@
    }

    /// The indices of every published line ever handed to subscriber `s`.
    pub closed spec fn delivered_of(self, s: int) -> Seq<int> {
        self.subs@[s].delivered@
    }

    pub closed spec fn taken_of(self, s: int) -> int {
        self.subs@[s].taken@
    }

    /// The lines still queued for subscriber `s`, oldest first.
    pub closed spec fn pending_of(self, s: int) -> Seq<Seq<char>> {
        self.subs@[s].queue.deep_view()
    }

    pub closed spec fn wf(self) -> bool {
        &&& self.cap > 0
        &&& forall|s: int|
            0 <= s < self.subs@.len() ==> (#[trigger] self.subs@[s]).wf(
                self.published@,
                self.cap as int,
            )
    }

    /// A fresh fan-out whose subscribers' queues will hold at most `cap`
    /// pending lines each.
    pub fn new(cap: usize) -> (f: Self)
        requires
            cap > 0,
        ensures
            f.wf(),
            f.history() == Seq::<Seq<char>>::empty(),
            f.sub_count() == 0,
            f.capacity() == cap,
    {
        FanOut { subs: Vec::new(), cap, published: Ghost(Seq::empty()) }
    }

    /// Register a new subscriber and return its handle. The subscriber
    /// starts with an empty queue and will see only lines published from
    /// now on.
    pub fn subscribe(&mut self) -> (id: usize)
        requires
            old(self).wf(),
        ensures
            final(self).wf(),
            id == old(self).sub_count(),
            final(self).sub_count() == old(self).sub_count() + 1,
            final(self).history() == old(self).history(),
            final(self).capacity() == old(self).capacity(),
            forall|s: int|
                0 <= s < old(self).sub_count() ==> #[trigger] final(self).birth_of(s) == old(self).birth_of(s) && final(self).delivered_of(s) == old(self).delivered_of(s) && final(self).taken_of(s) == old(self).taken_of(s) && final(self).pending_of(s) == old(self).pending_of(s),
            final(self).birth_of(id as int) == old(self).history().len(),
            final(self).delivered_of(id as int) == Seq::<int>::empty(),
            final(self).pending_of(id as int) == Seq::<Seq<char>>::empty(),
            final(self).taken_of(id as int) == 0,
    {
        let id: usize = self.subs.len();
        let sub = Subscriber {
            queue: Vec::new(),
            cap: self.cap,
            birth: Ghost(self.published@.len() as int),
            delivered: Ghost(Seq::empty()),
            taken: Ghost(0),
        };
        self.subs.push(sub);
        proof {
            assert(self.pending_of(id as int) =~= Seq::<Seq<char>>::empty());
        }
        id
    }

    /// Publish one line to every current subscriber. A subscriber whose
    /// queue is full misses this line (and only this line); the return
    /// value reports whether that happened to anyone.
    pub fn publish(&mut self, line: &str) -> (dropped: bool)
        requires
            old(self).wf(),
        ensures
            final(self).wf(),
            final(self).history() == old(self).history().push(line@),
            final(self).sub_count() == old(self).sub_count(),
            final(self).capacity() == old(self).capacity(),
            forall|s: int|
                0 <= s < old(self).sub_count() ==> #[trigger] final(self).birth_of(s) == old(self).birth_of(s) && final(self).taken_of(s) == old(self).taken_of(s),
            forall|s: int|
                0 <= s < old(self).sub_count() && #[trigger] old(self).pending_of(s).len() < old(self).capacity() ==> final(self).delivered_of(s) == old(self).delivered_of(s).push(
                    old(self).history().len() as int,
                ) && final(self).pending_of(s) == old(self).pending_of(s).push(line@),
            forall|s: int|
                0 <= s < old(self).sub_count() && #[trigger] old(self).pending_of(s).len() >= old(self).capacity() ==> final(self).delivered_of(s) == old(self).delivered_of(s) && final(self).pending_of(s) == old(self).pending_of(s),
            dropped <==> exists|s: int|
                0 <= s < old(self).sub_count() && #[trigger] old(self).pending_of(s).len() >= old(self).capacity(),
    {
        let ghost o_subs = self.subs@;
        let ghost o_pub = self.published@;
        let ghost idx: int = self.published@.len() as int;
        self.published = Ghost(self.published@.push(line@));
        let mut dropped = false;
        let n: usize = self.subs.len();
        for i in 0..n
            invariant
                old(self).wf(),
                n == o_subs.len(),
                self.subs@.len() == o_subs.len(),
                self.cap == old(self).cap,
                self.published@ == o_pub.push(line@),
                o_subs == old(self).subs@,
                o_pub == old(self).published@,
                idx == o_pub.len(),
                forall|s: int| i <= s < n ==> self.subs@[s] == o_subs[s],
                forall|s: int|
                    0 <= s < i ==> delivered_one_sub(
                        o_subs[s],
                        #[trigger] self.subs@[s],
                        idx,
                        line@,
                    ),
                dropped <==> exists|s: int|
                    0 <= s < i && #[trigger] o_subs[s].queue@.len() >= self.cap,
        {
            let room = self.subs[i].queue.len() < self.cap;
            if room {
                let ghost o_sub = self.subs@[i as int];
                self.subs[i].queue.push(String::from_str(line));
                self.subs[i].delivered = Ghost(o_sub.delivered@.push(idx));
                proof {
                    assert(self.subs@[i as int].queue.deep_view() =~= o_sub.queue.deep_view().push(
                        line@,
                    ));
                }
            } else {
                dropped = true;
                proof {
                    assert(o_subs[i as int].queue@.len() >= self.cap);
                }
            }
        }
        proof {
            let new_pub = self.published@;
            let cap = self.cap as int;
            assert forall|s: int| 0 <= s < self.subs@.len() implies (
            #[trigger] self.subs@[s]).wf(new_pub, cap) by {
                assert(o_subs[s].wf(o_pub, cap));
                assert(delivered_one_sub(o_subs[s], self.subs@[s], idx, line@));
                let ns = self.subs@[s];
                let os = o_subs[s];
                if os.queue@.len() < os.cap {
                    assert(ns.queue@.len() == ns.queue.deep_view().len());
                    assert(os.queue@.len() == os.queue.deep_view().len());
                    assert forall|k: int| 0 <= k < ns.queue@.len() implies (
                    #[trigger] ns.queue@[k])@ == new_pub[ns.delivered@[ns.taken@ + k]] by {
                        assert(ns.queue@[k]@ == ns.queue.deep_view()[k]);
                        if k < os.queue@.len() {
                            assert(ns.queue.deep_view()[k] == os.queue.deep_view()[k]);
                            assert(os.queue@[k]@ == o_pub[os.delivered@[os.taken@ + k]]);
                        } else {
                            assert(ns.queue.deep_view()[k] == line@);
                            assert(ns.delivered@[ns.taken@ + k] == idx);
                        }
                    }
                } else {
                    assert forall|k: int| 0 <= k < ns.queue@.len() implies (
                    #[trigger] ns.queue@[k])@ == new_pub[ns.delivered@[ns.taken@ + k]] by {
                        assert(os.queue@[k]@ == o_pub[os.delivered@[os.taken@ + k]]);
                    }
                }
            }
            assert forall|s: int| 0 <= s < o_subs.len() implies (#[trigger] old(self).pending_of(
                s,
            ).len() >= old(self).capacity()) == (o_subs[s].queue@.len() >= self.cap) by {
                assert(old(self).pending_of(s).len() == o_subs[s].queue@.len());
            }
            if dropped {
                let s0 = choose|s: int| 0 <= s < n && #[trigger] o_subs[s].queue@.len() >= self.cap;
                assert(old(self).pending_of(s0).len() >= old(self).capacity());
            }
            if exists|s: int|
                0 <= s < old(self).sub_count() && #[trigger] old(self).pending_of(s).len() >= old(
                    self,
                ).capacity() {
                let s1 = choose|s: int|
                    0 <= s < old(self).sub_count() && #[trigger] old(self).pending_of(s).len()
                        >= old(self).capacity();
                assert(o_subs[s1].queue@.len() >= self.cap);
            }
        }
        dropped
    }

    /// Take the oldest pending line for subscriber `id`, if any.
    pub fn recv(&mut self, id: usize) -> (r: Option<String>)
        requires
            old(self).wf(),
        ensures
            final(self).wf(),
            final(self).history() == old(self).history(),
            final(self).sub_count() == old(self).sub_count(),
            final(self).capacity() == old(self).capacity(),
            forall|s: int|
                0 <= s < old(self).sub_count() && s != id ==> #[trigger] final(self).birth_of(s)
                    == old(self).birth_of(s) && final(self).delivered_of(s) == old(self).delivered_of(s) && final(self).taken_of(s) == old(self).taken_of(s) && final(self).pending_of(s) == old(self).pending_of(s),
            id >= old(self).sub_count() || old(self).pending_of(id as int).len() == 0 ==> r
                is None && *final(self) == *old(self),
            id < old(self).sub_count() && old(self).pending_of(id as int).len() > 0 ==> {
                &&& r is Some
                &&& (r->Some_0)@ == old(self).pending_of(id as int)[0]
                &&& (r->Some_0)@ == old(self).history()[old(self).delivered_of(id as int)[old(self).taken_of(id as int)]]
                &&& final(self).pending_of(id as int) == old(self).pending_of(
                    id as int,
                ).drop_first()
                &&& final(self).delivered_of(id as int) == old(self).delivered_of(id as int)
                &&& final(self).taken_of(id as int) == old(self).taken_of(id as int) + 1
                &&& final(self).birth_of(id as int) == old(self).birth_of(id as int)
            },
    {
        if id >= self.subs.len() {
            return None;
        }
        if self.subs[id].queue.len() == 0 {
            proof {
                assert(old(self).pending_of(id as int).len() == 0);
            }
            return None;
        }
        let ghost o_sub = self.subs@[id as int];
        let line = self.subs[id].queue.remove(0);
        self.subs[id].taken = Ghost(o_sub.taken@ + 1);
        proof {
            assert(o_sub.wf(self.published@, self.cap as int));
            assert(line@ == old(self).pending_of(id as int)[0]);
            assert(self.pending_of(id as int) =~= old(self).pending_of(id as int).drop_first());
            let ns = self.subs@[id as int];
            assert forall|k: int| 0 <= k < ns.queue@.len() implies (#[trigger] ns.queue@[k])@
                == self.published@[ns.delivered@[ns.taken@ + k]] by {
                assert(ns.queue@[k] == o_sub.queue@[k + 1]);
                assert(o_sub.queue@[k + 1]@ == self.published@[o_sub.delivered@[o_sub.taken@ + k
                    + 1]]);
            }
            assert(ns.wf(self.published@, self.cap as int));
        }
        Some(line)
    }
}

/// Law: a late subscriber is isolated from history. Every line ever
/// delivered to a subscriber was published at or after the moment it
/// subscribed — a subscriber created after M lines never sees any of
/// those M — deliveries happen in publication order, and each pending
/// line is exactly the published line it stands for.
pub proof fn lemma_late_subscriber_isolation(f: FanOut, s: int)
    requires
        f.wf(),
        0 <= s < f.sub_count(),
    ensures
        forall|i: int|
            0 <= i < f.delivered_of(s).len() ==> f.birth_of(s) <= #[trigger] f.delivered_of(s)[i]
                < f.history().len(),
        forall|i: int, j: int|
            0 <= i < j < f.delivered_of(s).len() ==> #[trigger] f.delivered_of(s)[i]
                < #[trigger] f.delivered_of(s)[j],
        forall|i: int|
            0 <= i < f.pending_of(s).len() ==> #[trigger] f.pending_of(s)[i] == f.history()[
                f.delivered_of(s)[f.taken_of(s) + i]
            ],
{
    assert(f.subs@[s].wf(f.published@, f.cap as int));
    assert forall|i: int| 0 <= i < f.pending_of(s).len() implies #[trigger] f.pending_of(s)[i]
        == f.history()[f.delivered_of(s)[f.taken_of(s) + i]] by {
        assert(f.subs@[s].queue@[i]@ == f.published@[f.subs@[s].delivered@[f.subs@[s].taken@ + i]]);
    }
}

/// The single entry point of the output component: append one forwarded
/// line to the backlog, then publish it to every live subscriber. The
/// backlog gains exactly the line; the fan-out behaves as in
/// [`FanOut::publish`]; the report says whether any subscriber's full
/// queue made it miss the line.
pub fn append_and_broadcast(backlog: &mut crate::backlog::Backlog, fanout: &mut FanOut, line: &str) -> (dropped: bool)
    requires
        old(fanout).wf(),
    ensures
        final(backlog)@ == old(backlog)@ + line@,
        final(fanout).wf(),
        final(fanout).history() == old(fanout).history().push(line@),
        final(fanout).sub_count() == old(fanout).sub_count(),
        final(fanout).capacity() == old(fanout).capacity(),
        forall|s: int|
            0 <= s < old(fanout).sub_count() && #[trigger] old(fanout).pending_of(s).len() < old(fanout).capacity() ==> final(fanout).pending_of(s) == old(fanout).pending_of(s).push(line@),
        forall|s: int|
            0 <= s < old(fanout).sub_count() && #[trigger] old(fanout).pending_of(s).len() >= old(fanout).capacity() ==> final(fanout).pending_of(s) == old(fanout).pending_of(s),
        dropped <==> exists|s: int|
            0 <= s < old(fanout).sub_count() && #[trigger] old(fanout).pending_of(s).len() >= old(fanout).capacity(),
{
    backlog.append_line(line);
    fanout.publish(line)
}

} // verus!
