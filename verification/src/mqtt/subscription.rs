//! Subscriptions of the MQTT client: which topics it subscribed to, and
//! which waiting subscribers a received message goes to.
use vstd::prelude::*;
use vstd::string::StringSliceAdditionalSpecFns;
use crate::mqtt::codes::Qos;
use crate::text::str_equal;

verus! {

/// A message received from the MQTT broker.
#[derive(Clone, Debug)]
pub struct Message {
    /// The topic the message was published to.
    pub topic: String,
    /// The payload.
    pub data: Vec<u8>,
    /// Whether the broker may have delivered the message before.
    pub dup: bool,
    /// The quality of service of the delivery.
    pub qos: Qos,
    /// Whether the broker retains the message for new subscribers.
    pub retain: bool,
}

/// A wait for the next message on any of some topics.
pub struct Subscriber<S> {
    /// The topics, as bytes.
    pub topics: Vec<Vec<u8>>,
    /// Where the message goes.
    pub sender: S,
}

pub open spec fn subscriber_topics<S>(s: Subscriber<S>) -> Seq<Seq<u8>> {
    s.topics@.map_values(|t: Vec<u8>| t@)
}

/// The subscriber waits for messages on `topic` (given as bytes).
pub open spec fn waits_for<S>(s: Subscriber<S>, topic: Seq<u8>) -> bool {
    subscriber_topics(s).contains(topic)
}

fn bytes_equal(a: &[u8], b: &[u8]) -> (r: bool)
    ensures
        r == (a@ == b@),
{
    if a.len() != b.len() {
        return false;
    }
    let mut i: usize = 0;
    while i < a.len()
        invariant
            a@.len() == b@.len(),
            i <= a@.len(),
            forall|j: int| 0 <= j < i ==> a@[j] == b@[j],
        decreases a@.len() - i,
    {
        if a[i] != b[i] {
            return false;
        }
        i = i + 1;
    }
    assert(a@ =~= b@);
    true
}

impl<S> Subscriber<S> {
    /// A subscriber for the given topics.
    pub fn new(topics: &[&str], sender: S) -> (r: Subscriber<S>)
        ensures
            subscriber_topics(r) == topics@.map_values(|t: &str| t.spec_bytes()),
            r.sender == sender,
    {
        let mut v: Vec<Vec<u8>> = Vec::new();
        for i in 0..topics.len()
            invariant
                v@.map_values(|t: Vec<u8>| t@) == topics@.take(i as int).map_values(|t: &str| t.spec_bytes()),
        {
            let bytes = topics[i].as_bytes();
            let mut t: Vec<u8> = Vec::new();
            for k in 0..bytes.len()
                invariant
                    bytes@ == topics@[i as int].spec_bytes(),
                    t@ == bytes@.take(k as int),
            {
                t.push(bytes[k]);
                assert(bytes@.take(k + 1) == bytes@.take(k as int).push(bytes@[k as int]));
            }
            assert(bytes@.take(bytes.len() as int) == bytes@);
            let ghost before = v@.map_values(|t: Vec<u8>| t@);
            v.push(t);
            assert(v@.map_values(|t: Vec<u8>| t@) =~= before.push(t@));
            assert(topics@.take(i + 1).map_values(|t: &str| t.spec_bytes()) =~= topics@.take(
                i as int,
            ).map_values(|t: &str| t.spec_bytes()).push(topics@[i as int].spec_bytes()));
        }
        assert(topics@.take(topics.len() as int) == topics@);
        Subscriber { topics: v, sender }
    }

    /// Whether the subscriber waits for messages on `topic`.
    pub fn contains(&self, topic: &str) -> (r: bool)
        ensures
            r == waits_for(*self, topic.spec_bytes()),
    {
        let bytes = topic.as_bytes();
        let mut i: usize = 0;
        while i < self.topics.len()
            invariant
                i <= self.topics@.len(),
                bytes@ == topic.spec_bytes(),
                forall|j: int| 0 <= j < i ==> subscriber_topics(*self)[j] != bytes@,
            decreases self.topics@.len() - i,
        {
            if bytes_equal(self.topics[i].as_slice(), bytes) {
                assert(subscriber_topics(*self)[i as int] == bytes@);
                return true;
            }
            i = i + 1;
        }
        false
    }
}

/// Where the subscribers go when a message on `topic` arrives: those
/// waiting for the topic get the message (their senders, in queue order),
/// the others stay queued unless their receiver is gone.
pub open spec fn routed<S>(subs: Seq<Subscriber<S>>, closed: Seq<bool>, topic: Seq<u8>) -> (
    Seq<S>,
    Seq<Subscriber<S>>,
)
    decreases subs.len(),
{
    if subs.len() == 0 {
        (seq![], seq![])
    } else {
        let (d, k) = routed(subs.drop_last(), closed, topic);
        let s = subs.last();
        if waits_for(s, topic) {
            (d.push(s.sender), k)
        } else if !closed[subs.len() - 1] {
            (d, k.push(s))
        } else {
            (d, k)
        }
    }
}

/// A subscriber waits for a topic exactly when one of its topics is that
/// topic, byte for byte: a topic that merely starts with one of its topics,
/// or is a start of one, is not waited for.
pub proof fn lemma_waits_for_exact_topic<S>(s: Subscriber<S>, topic: Seq<u8>)
    ensures
        waits_for(s, topic) <==> exists|j: int| 0 <= j < s.topics@.len() && #[trigger] s.topics@[j]@ == topic,
        (forall|j: int| 0 <= j < s.topics@.len() ==> (#[trigger] s.topics@[j]@).len() != topic.len())
            ==> !waits_for(s, topic),
{
    if waits_for(s, topic) {
        let j = choose|j: int| 0 <= j < subscriber_topics(s).len() && subscriber_topics(s)[j] == topic;
        assert(s.topics@[j]@ == topic);
    }
    if exists|j: int| 0 <= j < s.topics@.len() && #[trigger] s.topics@[j]@ == topic {
        let j = choose|j: int| 0 <= j < s.topics@.len() && #[trigger] s.topics@[j]@ == topic;
        assert(subscriber_topics(s)[j] == topic);
    }
}

/// A message goes to nobody when no queued subscriber has its topic among
/// its own, byte for byte; then every subscriber whose receiver is still
/// there stays queued.
pub proof fn lemma_routed_to_nobody<S>(subs: Seq<Subscriber<S>>, closed: Seq<bool>, topic: Seq<u8>)
    requires
        closed.len() == subs.len(),
        forall|i: int, j: int|
            0 <= i < subs.len() && 0 <= j < subs[i].topics@.len() ==> #[trigger] subs[i].topics@[j]@ != topic,
    ensures
        routed(subs, closed, topic).0.len() == 0,
        routed(subs, closed, topic).1.len() == closed.filter(|c: bool| !c).len(),
    decreases subs.len(),
{
    if subs.len() > 0 {
        let rest = subs.drop_last();
        let cl = closed.drop_last();
        let s = subs.last();
        lemma_waits_for_exact_topic(s, topic);
        assert(!waits_for(s, topic)) by {
            if exists|j: int| 0 <= j < s.topics@.len() && #[trigger] s.topics@[j]@ == topic {
                let j = choose|j: int| 0 <= j < s.topics@.len() && #[trigger] s.topics@[j]@ == topic;
                assert(subs[subs.len() - 1].topics@[j]@ != topic);
            }
        }
        assert forall|i: int, j: int| 0 <= i < rest.len() && 0 <= j < rest[i].topics@.len() implies #[trigger] rest[
            i].topics@[j]@ != topic by {
            assert(rest[i] == subs[i]);
        }
        lemma_routed_prefix_closed(rest, closed, cl, topic);
        lemma_routed_to_nobody(rest, cl, topic);
        reveal(Seq::filter);
    }
}

/// Routes a message on `topic` through the queue of subscribers:
/// `closed[i]` tells whether the receiver of the `i`-th one is gone. It
/// returns the senders the message goes to, in queue order, and the
/// subscribers that stay queued, in queue order.
pub fn route_message<S>(subscribers: Vec<Subscriber<S>>, closed: &Vec<bool>, topic: &str) -> (r: (
    Vec<S>,
    Vec<Subscriber<S>>,
))
    requires
        closed@.len() == subscribers@.len(),
    ensures
        (r.0@, r.1@) == routed(subscribers@, closed@, topic.spec_bytes()),
{
    let ghost all = subscribers@;
    let mut rest = subscribers;
    let mut deliver: Vec<S> = Vec::new();
    let mut keep: Vec<Subscriber<S>> = Vec::new();
    let n = rest.len();
    let mut i: usize = 0;
    while i < n
        invariant
            n == all.len() == closed@.len(),
            i <= n,
            rest@ == all.skip(i as int),
            (deliver@, keep@) == routed(all.take(i as int), closed@, topic.spec_bytes()),
        decreases n - i,
    {
        let s = rest.remove(0);
        assert(all.take(i + 1).drop_last() == all.take(i as int));
        assert(s == all[i as int]);
        if s.contains(topic) {
            deliver.push(s.sender);
        } else if !closed[i] {
            keep.push(s);
        }
        assert(rest@ =~= all.skip(i + 1));
        i = i + 1;
    }
    assert(all.take(n as int) == all);
    (deliver, keep)
}

/// Routing loses no subscriber that waits for the topic or whose receiver
/// is still there, and delivers to a subscriber at most once: every
/// subscriber is delivered to, kept, or dropped because its receiver is
/// gone, and the counts add up.
pub proof fn lemma_route_accounts_for_all<S>(subs: Seq<Subscriber<S>>, closed: Seq<bool>, topic: Seq<u8>)
    requires
        closed.len() == subs.len(),
    ensures
        routed(subs, closed, topic).0.len() + routed(subs, closed, topic).1.len() + dropped_count(
            subs,
            closed,
            topic,
        ) == subs.len(),
    decreases subs.len(),
{
    if subs.len() > 0 {
        lemma_route_accounts_for_all(subs.drop_last(), closed.drop_last(), topic);
        lemma_routed_prefix_closed(subs.drop_last(), closed, closed.drop_last(), topic);
        lemma_dropped_prefix_closed(subs.drop_last(), closed, closed.drop_last(), topic);
    }
}

/// How many subscribers routing drops: those not waiting for the topic
/// whose receiver is gone.
pub open spec fn dropped_count<S>(subs: Seq<Subscriber<S>>, closed: Seq<bool>, topic: Seq<u8>) -> int
    decreases subs.len(),
{
    if subs.len() == 0 {
        0
    } else {
        dropped_count(subs.drop_last(), closed, topic) + if !waits_for(subs.last(), topic)
            && closed[subs.len() - 1] {
            1int
        } else {
            0
        }
    }
}

proof fn lemma_routed_prefix_closed<S>(subs: Seq<Subscriber<S>>, c1: Seq<bool>, c2: Seq<bool>, topic: Seq<u8>)
    requires
        forall|i: int| 0 <= i < subs.len() ==> c1[i] == c2[i],
    ensures
        routed(subs, c1, topic) == routed(subs, c2, topic),
    decreases subs.len(),
{
    if subs.len() > 0 {
        lemma_routed_prefix_closed(subs.drop_last(), c1, c2, topic);
    }
}

proof fn lemma_dropped_prefix_closed<S>(subs: Seq<Subscriber<S>>, c1: Seq<bool>, c2: Seq<bool>, topic: Seq<u8>)
    requires
        forall|i: int| 0 <= i < subs.len() ==> c1[i] == c2[i],
    ensures
        dropped_count(subs, c1, topic) == dropped_count(subs, c2, topic),
    decreases subs.len(),
{
    if subs.len() > 0 {
        lemma_dropped_prefix_closed(subs.drop_last(), c1, c2, topic);
    }
}

} // verus!

verus! {

/// Some string slice of `ts` holds `t`.
pub open spec fn str_listed(ts: Seq<&str>, t: Seq<char>) -> bool {
    exists|k: int| 0 <= k < ts.len() && ts[k]@ == t
}

/// Some string of `ts` holds `t`.
pub open spec fn string_listed(ts: Seq<String>, t: Seq<char>) -> bool {
    exists|k: int| 0 <= k < ts.len() && ts[k]@ == t
}

/// The topics the client has subscribed to, each once.
pub struct Subscriptions {
    topics: Vec<String>,
}

impl View for Subscriptions {
    type V = Set<Seq<char>>;

    closed spec fn view(&self) -> Set<Seq<char>> {
        self.topics@.map_values(|t: String| t@).to_set()
    }
}

impl Subscriptions {
    /// No topic occurs twice.
    pub closed spec fn well_formed(&self) -> bool {
        forall|i: int, j: int|
            0 <= i < j < self.topics@.len() ==> self.topics@[i]@ != self.topics@[j]@
    }

    proof fn lemma_view_contains(&self, t: Seq<char>)
        ensures
            self@.contains(t) <==> exists|i: int| 0 <= i < self.topics@.len() && self.topics@[i]@ == t,
    {
        let s = self.topics@.map_values(|x: String| x@);
        if self@.contains(t) {
            let i = choose|i: int| 0 <= i < s.len() && s[i] == t;
            assert(0 <= i < self.topics@.len() && self.topics@[i]@ == t);
        }
        if exists|i: int| 0 <= i < self.topics@.len() && self.topics@[i]@ == t {
            let i = choose|i: int| 0 <= i < self.topics@.len() && self.topics@[i]@ == t;
            assert(s[i] == t);
        }
    }

    /// No subscriptions.
    pub fn new() -> (r: Subscriptions)
        ensures
            r.well_formed(),
            r@ == Set::<Seq<char>>::empty(),
    {
        let r = Subscriptions { topics: Vec::new() };
        assert(r@ =~= Set::<Seq<char>>::empty()) by {
            assert forall|t: Seq<char>| !r@.contains(t) by {
                r.lemma_view_contains(t);
            }
        }
        r
    }

    fn position(&self, topic: &str) -> (r: Option<usize>)
        ensures
            r matches Some(i) ==> i < self.topics@.len() && self.topics@[i as int]@ == topic@,
            r is None ==> forall|i: int| 0 <= i < self.topics@.len() ==> self.topics@[i]@ != topic@,
    {
        let mut i: usize = 0;
        while i < self.topics.len()
            invariant
                i <= self.topics@.len(),
                forall|j: int| 0 <= j < i ==> self.topics@[j]@ != topic@,
            decreases self.topics@.len() - i,
        {
            if str_equal(self.topics[i].as_str(), topic) {
                return Some(i);
            }
            i = i + 1;
        }
        None
    }

    /// Whether the client subscribed to `topic`.
    pub fn contains(&self, topic: &str) -> (r: bool)
        ensures
            r == self@.contains(topic@),
    {
        proof {
            self.lemma_view_contains(topic@);
        }
        self.position(topic).is_some()
    }

    /// Records a subscription to `topic`; tells whether it is new.
    pub fn insert(&mut self, topic: &str) -> (r: bool)
        requires
            old(self).well_formed(),
        ensures
            final(self).well_formed(),
            final(self)@ == old(self)@.insert(topic@),
            r == !old(self)@.contains(topic@),
    {
        proof {
            self.lemma_view_contains(topic@);
        }
        match self.position(topic) {
            Some(_) => {
                assert(self@ =~= self@.insert(topic@));
                false
            },
            None => {
                let ghost before = *self;
                self.topics.push(topic.to_owned());
                proof {
                    assert forall|t: Seq<char>| #[trigger] self@.contains(t) == before@.insert(topic@).contains(t) by {
                        self.lemma_view_contains(t);
                        before.lemma_view_contains(t);
                        if before@.contains(t) {
                            let i = choose|i: int| 0 <= i < before.topics@.len() && before.topics@[i]@ == t;
                            assert(self.topics@[i] == before.topics@[i]);
                        }
                        if t == topic@ {
                            assert(self.topics@[self.topics@.len() - 1]@ == t);
                        }
                    }
                    assert(self@ =~= before@.insert(topic@));
                }
                true
            },
        }
    }

    /// Forgets the subscription to `topic`; tells whether there was one.
    pub fn remove(&mut self, topic: &str) -> (r: bool)
        requires
            old(self).well_formed(),
        ensures
            final(self).well_formed(),
            final(self)@ == old(self)@.remove(topic@),
            r == old(self)@.contains(topic@),
    {
        proof {
            self.lemma_view_contains(topic@);
        }
        match self.position(topic) {
            Some(i) => {
                let ghost before = *self;
                self.topics.remove(i);
                proof {
                    assert forall|a: int, b: int|
                        0 <= a < b < self.topics@.len() implies self.topics@[a]@ != self.topics@[b]@ by {
                        let a0 = if a < i { a } else { a + 1 };
                        let b0 = if b < i { b } else { b + 1 };
                        assert(self.topics@[a] == before.topics@[a0]);
                        assert(self.topics@[b] == before.topics@[b0]);
                    }
                    assert forall|t: Seq<char>| #[trigger] self@.contains(t) == before@.remove(topic@).contains(t) by {
                        self.lemma_view_contains(t);
                        before.lemma_view_contains(t);
                        if self@.contains(t) {
                            let k = choose|k: int| 0 <= k < self.topics@.len() && self.topics@[k]@ == t;
                            let k0 = if k < i { k } else { k + 1 };
                            assert(before.topics@[k0]@ == t);
                            assert(k0 != i);
                        }
                        if before@.contains(t) && t != topic@ {
                            let k = choose|k: int| 0 <= k < before.topics@.len() && before.topics@[k]@ == t;
                            assert(k != i);
                            let k1 = if k < i { k } else { k - 1 };
                            assert(self.topics@[k1]@ == t);
                        }
                    }
                    assert(self@ =~= before@.remove(topic@));
                }
                true
            },
            None => {
                assert(self@ =~= self@.remove(topic@));
                false
            },
        }
    }

    /// The topics of `topics` not subscribed to yet, each once, in the order
    /// of their first occurrence.
    pub fn missing(&self, topics: &[&str]) -> (r: Vec<String>)
        ensures
            forall|i: int, j: int| 0 <= i < j < r@.len() ==> r@[i]@ != r@[j]@,
            forall|i: int| 0 <= i < r@.len() ==> !self@.contains(#[trigger] r@[i]@),
            forall|i: int| 0 <= i < r@.len() ==> str_listed(topics@, #[trigger] r@[i]@),
            forall|k: int| 0 <= k < topics@.len() && !self@.contains(#[trigger] topics@[k]@) ==> string_listed(
                r@,
                topics@[k]@,
            ),
    {
        let mut out: Vec<String> = Vec::new();
        for k in 0..topics.len()
            invariant
                forall|i: int, j: int| 0 <= i < j < out@.len() ==> out@[i]@ != out@[j]@,
                forall|i: int| 0 <= i < out@.len() ==> !self@.contains(#[trigger] out@[i]@),
                forall|i: int| 0 <= i < out@.len() ==> str_listed(topics@, #[trigger] out@[i]@),
                forall|m: int| 0 <= m < k && !self@.contains(#[trigger] topics@[m]@) ==> string_listed(
                    out@,
                    topics@[m]@,
                ),
        {
            let t = topics[k];
            let mut seen = false;
            let mut i: usize = 0;
            while i < out.len()
                invariant
                    i <= out@.len(),
                    seen ==> string_listed(out@, t@),
                    !seen ==> forall|j: int| 0 <= j < i ==> out@[j]@ != t@,
                decreases out@.len() - i,
            {
                if str_equal(out[i].as_str(), t) {
                    seen = true;
                }
                i = i + 1;
            }
            let ghost before = out@;
            let present = self.contains(t);
            if !seen && !present {
                out.push(t.to_owned());
                assert(out@[out@.len() - 1]@ == topics@[k as int]@);
            }
            proof {
                assert forall|m: int|
                    0 <= m < k + 1 && !self@.contains(#[trigger] topics@[m]@) implies string_listed(
                    out@,
                    topics@[m]@,
                ) by {
                    if m < k {
                        let j = choose|j: int| 0 <= j < before.len() && before[j]@ == topics@[m]@;
                        assert(out@[j] == before[j]);
                    } else if seen {
                        let j = choose|j: int| 0 <= j < before.len() && before[j]@ == t@;
                        assert(out@[j] == before[j]);
                    } else {
                        assert(out@[out@.len() - 1]@ == topics@[m]@);
                    }
                }
                assert forall|i: int| 0 <= i < out@.len() implies str_listed(topics@, #[trigger] out@[i]@) by {
                    if i < before.len() {
                        assert(out@[i] == before[i]);
                    } else {
                        assert(topics@[k as int]@ == out@[i]@);
                    }
                }
            }
        }
        out
    }
}

/// Subscribing to a topic and then unsubscribing from it leaves the
/// subscriptions as they were, when the topic was not subscribed before.
pub proof fn lemma_subscribe_unsubscribe(s: Set<Seq<char>>, t: Seq<char>)
    requires
        !s.contains(t),
    ensures
        s.insert(t).remove(t) == s,
{
    assert(s.insert(t).remove(t) =~= s);
}

} // verus!
