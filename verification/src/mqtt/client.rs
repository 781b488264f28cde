//! What the MQTT client decides around each request it hands to the AWS
//! library: whether the request may go out and with which topics, what the
//! library's answer changes, and who waits for the answer to which packet.
use vstd::prelude::*;
use vstd::string::StringExecFns;
use vstd::utf8::encode_utf8;
use std::collections::HashMap;
use crate::mqtt::config::{c_string, first_nul};
use crate::mqtt::error::Error;
use crate::mqtt::codes::AwsMqttError;
use crate::mqtt::status::{check_packet_id, is_connected, ClientStatus};
use crate::mqtt::subscription::{str_listed, string_listed, Subscriptions};
use crate::text::string_push;

verus! {

broadcast use vstd::std_specs::hash::group_hash_axioms;

/// The text holds a NUL byte, so the C side cannot take it.
pub open spec fn has_nul(s: Seq<char>) -> bool {
    first_nul(encode_utf8(s)) is Some
}

/// The views of some string slices.
pub open spec fn str_views(ts: Seq<&str>) -> Seq<Seq<char>> {
    ts.map_values(|t: &str| t@)
}

/// The texts separated by commas.
pub open spec fn joined(ts: Seq<Seq<char>>) -> Seq<char>
    decreases ts.len(),
{
    if ts.len() == 0 {
        seq![]
    } else if ts.len() == 1 {
        ts[0]
    } else {
        joined(ts.drop_last()) + seq![','] + ts.last()
    }
}

/// The topics separated by commas, as an invalid topic list is reported.
pub fn join_topics(topics: &[&str]) -> (r: String)
    ensures
        r@ == joined(str_views(topics@)),
{
    let mut out = String::new();
    for i in 0..topics.len()
        invariant
            out@ == joined(str_views(topics@).take(i as int)),
    {
        let ghost before = out@;
        if i > 0 {
            string_push(&mut out, ',');
        }
        out.append(topics[i]);
        proof {
            let ts = str_views(topics@).take(i + 1);
            assert(ts.drop_last() == str_views(topics@).take(i as int));
            assert(ts.last() == topics@[i as int]@);
            if i == 0 {
                assert(before == Seq::<char>::empty());
                assert(out@ == ts[0]);
            } else {
                assert(out@ == before + seq![','] + topics@[i as int]@);
            }
        }
    }
    assert(str_views(topics@).take(topics.len() as int) == str_views(topics@));
    out
}

/// The topic of a publish, as the library takes it: the client must be
/// connected, and the topic must hold no NUL byte.
pub fn publish_request(status: ClientStatus, topic: &str) -> (r: Result<String, Error>)
    ensures
        status != ClientStatus::Connected ==> r matches Err(Error::NotConnected),
        status == ClientStatus::Connected && has_nul(topic@) ==> (r matches Err(Error::InvalidTopic(t))
            && t@ == topic@),
        status == ClientStatus::Connected && !has_nul(topic@) ==> (r matches Ok(t) && t@ == topic@),
{
    if !is_connected(status) {
        return Err(Error::NotConnected);
    }
    match c_string(topic) {
        Ok(t) => Ok(t),
        Err(_) => Err(Error::InvalidTopic(topic.to_owned())),
    }
}

/// Whether a subscription to `topic` must be asked of the library (`Some`
/// with the topic) or is already in place (`None`): the client must be
/// connected, and the topic must hold no NUL byte.
pub fn subscribe_request(status: ClientStatus, subscriptions: &Subscriptions, topic: &str) -> (r: Result<
    Option<String>,
    Error,
>)
    ensures
        status != ClientStatus::Connected ==> r matches Err(Error::NotConnected),
        status == ClientStatus::Connected && has_nul(topic@) ==> (r matches Err(Error::InvalidTopic(t))
            && t@ == topic@),
        status == ClientStatus::Connected && !has_nul(topic@) ==> (r matches Ok(o) && (o is Some
            <==> !subscriptions@.contains(topic@)) && (o matches Some(t) ==> t@ == topic@)),
{
    let t = publish_request(status, topic)?;
    if subscriptions.contains(topic) {
        Ok(None)
    } else {
        Ok(Some(t))
    }
}

/// Some topic of `topics` that the client has not subscribed to holds a
/// NUL byte.
pub open spec fn missing_has_nul(subscriptions: Set<Seq<char>>, topics: Seq<&str>) -> bool {
    exists|k: int|
        0 <= k < topics.len() && !subscriptions.contains(#[trigger] topics[k]@) && has_nul(topics[k]@)
}

/// The topics a subscription to several topics must ask the library for:
/// those not subscribed to yet, each once. The client must be connected,
/// and none of those topics may hold a NUL byte; the error then names all
/// the topics asked for.
pub fn subscribe_multiple_request(status: ClientStatus, subscriptions: &Subscriptions, topics: &[&str]) -> (r:
    Result<Vec<String>, Error>)
    ensures
        status != ClientStatus::Connected ==> r matches Err(Error::NotConnected),
        status == ClientStatus::Connected && missing_has_nul(subscriptions@, topics@) ==> (r matches Err(
            Error::InvalidTopic(t),
        ) && t@ == joined(str_views(topics@))),
        status == ClientStatus::Connected && !missing_has_nul(subscriptions@, topics@) ==> r is Ok,
        r matches Ok(m) ==> {
            &&& forall|i: int, j: int| 0 <= i < j < m@.len() ==> m@[i]@ != m@[j]@
            &&& forall|i: int| 0 <= i < m@.len() ==> !subscriptions@.contains(#[trigger] m@[i]@)
            &&& forall|i: int| 0 <= i < m@.len() ==> str_listed(topics@, #[trigger] m@[i]@)
            &&& forall|k: int|
                0 <= k < topics@.len() && !subscriptions@.contains(#[trigger] topics@[k]@)
                    ==> string_listed(m@, topics@[k]@)
        },
{
    if !is_connected(status) {
        return Err(Error::NotConnected);
    }
    let missing = subscriptions.missing(topics);
    let mut i: usize = 0;
    while i < missing.len()
        invariant
            i <= missing@.len(),
            status == ClientStatus::Connected,
            forall|j: int| 0 <= j < i ==> !has_nul(#[trigger] missing@[j]@),
            forall|j: int| 0 <= j < missing@.len() ==> !subscriptions@.contains(#[trigger] missing@[j]@),
            forall|j: int| 0 <= j < missing@.len() ==> str_listed(topics@, #[trigger] missing@[j]@),
        decreases missing@.len() - i,
    {
        if c_string(missing[i].as_str()).is_err() {
            proof {
                let t = missing@[i as int]@;
                assert(str_listed(topics@, t));
                let k = choose|k: int| 0 <= k < topics@.len() && topics@[k]@ == t;
                assert(!subscriptions@.contains(topics@[k]@));
            }
            return Err(Error::InvalidTopic(join_topics(topics)));
        }
        i = i + 1;
    }
    proof {
        if missing_has_nul(subscriptions@, topics@) {
            let k = choose|k: int|
                0 <= k < topics@.len() && !subscriptions@.contains(#[trigger] topics@[k]@) && has_nul(
                    topics@[k]@,
                );
            let j = choose|j: int| 0 <= j < missing@.len() && missing@[j]@ == topics@[k]@;
            assert(!has_nul(missing@[j]@));
        }
    }
    Ok(missing)
}

/// Records the subscriptions the library took, once it answered a request
/// for `topics` with `packet_id`: packet id 0 means the library refused,
/// and nothing is recorded.
pub fn record_subscriptions(subscriptions: &mut Subscriptions, topics: Vec<String>, packet_id: u16) -> (r:
    Result<(), Error>)
    requires
        old(subscriptions).well_formed(),
    ensures
        final(subscriptions).well_formed(),
        packet_id == 0 ==> r == Err::<(), Error>(Error::AwsMqttError(AwsMqttError::ProtocolError))
            && final(subscriptions)@ == old(subscriptions)@,
        packet_id != 0 ==> r is Ok && final(subscriptions)@ == old(subscriptions)@.union(
            topics@.map_values(|t: String| t@).to_set(),
        ),
{
    if let Err(e) = check_packet_id(packet_id) {
        return Err(e);
    }
    let ghost start = subscriptions@;
    let ghost views = topics@.map_values(|t: String| t@);
    for i in 0..topics.len()
        invariant
            subscriptions.well_formed(),
            views == topics@.map_values(|t: String| t@),
            subscriptions@ == start.union(views.take(i as int).to_set()),
    {
        subscriptions.insert(topics[i].as_str());
        proof {
            assert(views.take(i + 1) == views.take(i as int).push(views[i as int]));
            views.take(i as int).lemma_push_to_set_commute(views[i as int]);
        }
        assert(subscriptions@ =~= start.union(views.take(i + 1).to_set()));
    }
    assert(views.take(topics.len() as int) == views);
    Ok(())
}

/// Recording what a subscription to several topics asked the library for
/// leaves the client subscribed to every one of those topics.
pub proof fn lemma_recorded_topics_cover(subscriptions: Set<Seq<char>>, topics: Seq<&str>, asked: Seq<String>)
    requires
        forall|k: int|
            0 <= k < topics.len() && !subscriptions.contains(#[trigger] topics[k]@) ==> string_listed(
                asked,
                topics[k]@,
            ),
    ensures
        forall|k: int|
            0 <= k < topics.len() ==> subscriptions.union(asked.map_values(|t: String| t@).to_set()).contains(
                #[trigger] topics[k]@,
            ),
{
    let views = asked.map_values(|t: String| t@);
    assert forall|k: int| 0 <= k < topics.len() implies subscriptions.union(views.to_set()).contains(
        #[trigger] topics[k]@,
    ) by {
        if !subscriptions.contains(topics[k]@) {
            let j = choose|j: int| 0 <= j < asked.len() && asked[j]@ == topics[k]@;
            assert(views[j] == topics[k]@);
            assert(views.contains(topics[k]@));
        }
    }
}

/// Whether an unsubscription must be asked of the library (`Some` with
/// the topic, after forgetting the subscription) or there is none to undo
/// (`None`): the client must be connected, and the topic must hold no NUL
/// byte; on an error nothing changes.
pub fn unsubscribe_request(status: ClientStatus, subscriptions: &mut Subscriptions, topic: &str) -> (r:
    Result<Option<String>, Error>)
    requires
        old(subscriptions).well_formed(),
    ensures
        final(subscriptions).well_formed(),
        status != ClientStatus::Connected ==> r matches Err(Error::NotConnected),
        status == ClientStatus::Connected && has_nul(topic@) ==> (r matches Err(Error::InvalidTopic(t))
            && t@ == topic@),
        r is Err ==> final(subscriptions)@ == old(subscriptions)@,
        status == ClientStatus::Connected && !has_nul(topic@) ==> {
            &&& r matches Ok(o)
            &&& (o is Some <==> old(subscriptions)@.contains(topic@))
            &&& (o matches Some(t) ==> t@ == topic@)
            &&& final(subscriptions)@ == old(subscriptions)@.remove(topic@)
        },
{
    let t = publish_request(status, topic)?;
    if subscriptions.remove(topic) {
        Ok(Some(t))
    } else {
        Ok(None)
    }
}

/// Who waits for the library's answer to which packet.
pub struct Notifiers<S> {
    pending: HashMap<u16, S>,
}

impl<S> View for Notifiers<S> {
    type V = Map<u16, S>;

    closed spec fn view(&self) -> Map<u16, S> {
        self.pending@
    }
}

impl<S> Notifiers<S> {
    /// Nobody waits.
    pub fn new() -> (r: Self)
        ensures
            r@ == Map::<u16, S>::empty(),
    {
        Notifiers { pending: HashMap::new() }
    }

    /// `sender` waits for the answer to `packet_id` (in place of whoever
    /// waited for it before).
    pub fn register(&mut self, packet_id: u16, sender: S)
        ensures
            final(self)@ == old(self)@.insert(packet_id, sender),
    {
        let _ = self.pending.insert(packet_id, sender);
    }

    /// Who waited for the answer to `packet_id`, which no longer waits.
    pub fn take(&mut self, packet_id: u16) -> (r: Option<S>)
        ensures
            r == (if old(self)@.contains_key(packet_id) {
                Some(old(self)@[packet_id])
            } else {
                None
            }),
            final(self)@ == old(self)@.remove(packet_id),
    {
        self.pending.remove(&packet_id)
    }
}

/// The answer to a packet reaches the one registered for it, once: taking
/// it right after registering gives back that sender and leaves the other
/// waits as they were, and a second take finds nobody.
pub proof fn lemma_register_take<S>(waits: Map<u16, S>, packet_id: u16, sender: S)
    requires
        !waits.contains_key(packet_id),
    ensures
        waits.insert(packet_id, sender).contains_key(packet_id),
        waits.insert(packet_id, sender)[packet_id] == sender,
        waits.insert(packet_id, sender).remove(packet_id) == waits,
        !waits.insert(packet_id, sender).remove(packet_id).contains_key(packet_id),
{
    assert(waits.insert(packet_id, sender).remove(packet_id) =~= waits);
}

} // verus!
