use vstd::prelude::*;
use vstd::utf8::{decode_utf8, valid_utf8};

verus! {

/// A message received on a topic.
#[derive(Clone, Debug)]
pub struct MqttMessage {
    pub payload: String,
    pub topic: String,
}

/// A failure of the MQTT layer.
#[derive(Debug)]
pub struct MqttError;

impl MqttError {
    /// The message that the API answers with.
    pub fn message(&self) -> (r: &'static str)
        ensures
            r@ == "error on mqtt layer"@,
    {
        "error on mqtt layer"
    }
}

/// The text that `String::from_utf8_lossy` makes of `bytes`.
pub uninterp spec fn lossy_text(bytes: Seq<u8>) -> Seq<char>;

/// Decodes a payload as text, replacing invalid UTF-8 sequences.
/// Trusted: `String::from_utf8_lossy`. The contract claims that its result
/// is a function of the bytes alone (named `lossy_text`), and, as its
/// documentation states, that valid UTF-8 is decoded as such. What it makes
/// of invalid sequences (a replacement character for each) is not spelled
/// out beyond the name.
#[verifier::external_body]
fn payload_text(bytes: &[u8]) -> (r: String)
    ensures
        r@ == lossy_text(bytes@),
        valid_utf8(bytes@) ==> r@ == decode_utf8(bytes@),
{
    String::from_utf8_lossy(bytes).into_owned()
}

/// No topic occurs twice.
pub open spec fn topics_unique(t: Seq<Seq<char>>) -> bool {
    forall|i: int, j: int| 0 <= i < t.len() && 0 <= j < t.len() && i != j ==> #[trigger] t[i] != #[trigger] t[j]
}

/// The slot of `topic` among `t`, if it has one.
pub open spec fn slot_in(t: Seq<Seq<char>>, topic: Seq<char>) -> Option<int> {
    if exists|i: int| 0 <= i < t.len() && #[trigger] t[i] == topic {
        Some(choose|i: int| 0 <= i < t.len() && #[trigger] t[i] == topic)
    } else {
        None
    }
}

/// The subscriptions of a client: each topic that has been subscribed to,
/// once, in a slot of its own. A receiver of messages is kept beside each
/// slot by the caller; a topic's slot never changes.
pub struct TopicRouter {
    topics: Vec<String>,
}

impl TopicRouter {
    /// The subscribed topics, by slot.
    pub closed spec fn topics(&self) -> Seq<Seq<char>> {
        self.topics@.map_values(|t: String| t@)
    }

    /// Each topic has one slot.
    #[verifier::type_invariant]
    spec fn wf(&self) -> bool {
        topics_unique(self.topics())
    }

    /// A router with no subscription.
    pub fn new() -> (r: Self)
        ensures
            r.topics() == Seq::<Seq<char>>::empty(),
    {
        let r = TopicRouter { topics: Vec::new() };
        assert(r.topics() =~= Seq::<Seq<char>>::empty());
        r
    }

    /// The slot of `topic`, if it has been subscribed to.
    pub fn slot_of(&self, topic: &String) -> (r: Option<usize>)
        ensures
            match r {
                Some(i) => slot_in(self.topics(), topic@) == Some(i as int),
                None => slot_in(self.topics(), topic@) is None,
            },
    {
        proof {
            use_type_invariant(self);
        }
        let mut i: usize = 0;
        while i < self.topics.len()
            invariant
                i <= self.topics@.len(),
                topics_unique(self.topics()),
                forall|j: int| 0 <= j < i ==> #[trigger] self.topics()[j] != topic@,
            decreases self.topics@.len() - i,
        {
            if self.topics[i] == *topic {
                proof {
                    let t = self.topics();
                    assert(t[i as int] == topic@);
                    let c = choose|c: int| 0 <= c < t.len() && #[trigger] t[c] == topic@;
                    if c != i as int {
                        assert(t[c] != t[i as int]);
                    }
                }
                return Some(i);
            }
            i = i + 1;
        }
        proof {
            let t = self.topics();
            assert(!exists|j: int| 0 <= j < t.len() && #[trigger] t[j] == topic@);
        }
        None
    }

    /// The slot of `topic`, given one if it had none: a topic subscribed to
    /// again keeps its slot; a new topic takes the next slot.
    pub fn subscribe(&mut self, topic: String) -> (slot: usize)
        ensures
            topics_unique(final(self).topics()),
            final(self).topics() == subscribed(old(self).topics(), topic@),
            slot_in(final(self).topics(), topic@) == Some(slot as int),
            match slot_in(old(self).topics(), topic@) {
                Some(i) => slot == i && final(self).topics() == old(self).topics(),
                None => slot == old(self).topics().len() && final(self).topics() == old(self).topics().push(topic@),
            },
    {
        proof {
            use_type_invariant(&*self);
        }
        match self.slot_of(&topic) {
            Some(i) => i,
            None => {
                proof {
                    use_type_invariant(&*self);
                }
                let ghost before = self.topics();
                let mut topics: Vec<String> = Vec::new();
                std::mem::swap(&mut topics, &mut self.topics);
                let slot = topics.len();
                topics.push(topic);
                proof {
                    let t = topics@.map_values(|t: String| t@);
                    assert(before =~= old(self).topics@.map_values(|t: String| t@));
                    assert(t =~= before.push(topic@));
                    assert(!exists|j: int| 0 <= j < before.len() && #[trigger] before[j] == topic@);
                    assert forall|i: int, j: int| 0 <= i < t.len() && 0 <= j < t.len() && i != j implies #[trigger] t[i] != #[trigger] t[j] by {
                        if i < before.len() && j < before.len() {
                            assert(t[i] == before[i] && t[j] == before[j]);
                        } else if i < before.len() {
                            assert(t[i] == before[i]);
                        } else if j < before.len() {
                            assert(t[j] == before[j]);
                        }
                    }
                    assert(t[slot as int] == topic@);
                    let c = choose|c: int| 0 <= c < t.len() && #[trigger] t[c] == topic@;
                    if c != slot as int {
                        assert(t[c] != t[slot as int]);
                    }
                }
                self.topics = topics;
                slot
            },
        }
    }

    /// Where an incoming publication goes: to the slot of its topic, with its
    /// payload read as text (invalid UTF-8 replaced); nowhere when the topic has not been subscribed to.
    pub fn dispatch(&self, topic: String, payload: &[u8]) -> (r: Option<(usize, MqttMessage)>)
        ensures
            match r {
                Some((slot, message)) => {
                    &&& slot_in(self.topics(), topic@) == Some(slot as int)
                    &&& message.topic == topic
                    &&& message.payload@ == lossy_text(payload@)
                    &&& valid_utf8(payload@) ==> message.payload@ == decode_utf8(payload@)
                },
                None => slot_in(self.topics(), topic@) is None,
            },
    {
        match self.slot_of(&topic) {
            Some(slot) => {
                let text = payload_text(payload);
                Some((slot, MqttMessage { topic, payload: text }))
            },
            None => None,
        }
    }
}

/// Subscribing makes a topic's publications go to the slot it was given.
pub proof fn law_dispatch_after_subscribe(before: Seq<Seq<char>>, topic: Seq<char>)
    requires
        topics_unique(before),
    ensures
        slot_in(subscribed(before, topic), topic) is Some,
        topics_unique(subscribed(before, topic)),
        slot_in(before, topic) is Some ==> slot_in(subscribed(before, topic), topic) == slot_in(before, topic),
        slot_in(before, topic) is None ==> slot_in(subscribed(before, topic), topic) == Some(before.len() as int),
{
    let after = subscribed(before, topic);
    if slot_in(before, topic) is None {
        assert(after[before.len() as int] == topic);
        assert forall|i: int, j: int| 0 <= i < after.len() && 0 <= j < after.len() && i != j implies #[trigger] after[i] != #[trigger] after[j] by {
            if i < before.len() && j < before.len() {
                assert(after[i] == before[i] && after[j] == before[j]);
            } else if i < before.len() {
                assert(after[i] == before[i]);
            } else if j < before.len() {
                assert(after[j] == before[j]);
            }
        }
        let c = choose|c: int| 0 <= c < after.len() && #[trigger] after[c] == topic;
        if c != before.len() as int {
            assert(after[c] != after[before.len() as int]);
        }
    }
}

/// Subscribing keeps the slot of every other topic.
pub proof fn law_subscribe_keeps_other_slots(before: Seq<Seq<char>>, topic: Seq<char>, other: Seq<char>)
    requires
        topics_unique(before),
        other != topic,
    ensures
        slot_in(subscribed(before, topic), other) == slot_in(before, other),
{
    let after = subscribed(before, topic);
    if slot_in(before, topic) is None {
        if exists|i: int| 0 <= i < before.len() && #[trigger] before[i] == other {
            let b = choose|i: int| 0 <= i < before.len() && #[trigger] before[i] == other;
            assert(after[b] == other);
            let a = choose|i: int| 0 <= i < after.len() && #[trigger] after[i] == other;
            assert(a < before.len());
            assert(before[a] == other);
            law_dispatch_after_subscribe(before, topic);
            if a != b {
                assert(after[a] != after[b]);
            }
        }
        if exists|i: int| 0 <= i < after.len() && #[trigger] after[i] == other {
            let a = choose|i: int| 0 <= i < after.len() && #[trigger] after[i] == other;
            assert(before[a] == other);
        }
    }
}

/// The topics after subscribing to `topic`: unchanged when it has a slot,
/// else with it in the next slot.
pub open spec fn subscribed(before: Seq<Seq<char>>, topic: Seq<char>) -> Seq<Seq<char>> {
    if slot_in(before, topic) is Some {
        before
    } else {
        before.push(topic)
    }
}

} // verus!
