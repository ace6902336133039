//! What holds of every run of the hub: the account of what was published and
//! what each subscriber has seen.

use vstd::prelude::*;
use vstd::multiset::*;
use vstd::seq_lib::*;
use crate::hub::HubState;
use crate::hub::RelayOutcome;
use crate::hub::RelayState;
use crate::text::lossy_text;

verus! {

/// One thing that happens to a hub.
pub enum HubEvent {
    /// A capture loop puts a payload on the capture channel.
    Publish(Seq<u8>),
    /// A subscriber comes.
    Subscribe,
    /// The relay of this subscriber runs one step.
    Relay(int),
    /// This subscriber takes the next message from its stream.
    Take(int),
}

/// A hub together with the history of its run.
pub struct Ledger {
    pub hub: HubState,
    /// Every payload that was published, in the order of publication.
    pub published: Seq<Seq<u8>>,
    /// For each subscriber, the messages it has taken from its stream, in the
    /// order in which it took them.
    pub seen: Seq<Seq<Seq<char>>>,
}

/// The texts that relays make of these payloads, in the same order.
pub open spec fn texts(payloads: Seq<Seq<u8>>) -> Seq<Seq<char>> {
    payloads.map_values(|payload: Seq<u8>| lossy_text(payload))
}

/// All messages of these streams together, each as often as it occurs.
pub open spec fn total(streams: Seq<Seq<Seq<char>>>) -> Multiset<Seq<char>>
    decreases streams.len(),
{
    if streams.len() == 0 {
        Multiset::empty()
    } else {
        total(streams.drop_last()).add(streams.last().to_multiset())
    }
}

impl Ledger {
    /// The ledger of a hub to which nothing has happened.
    pub open spec fn start() -> Ledger {
        Ledger { hub: HubState::empty(), published: Seq::empty(), seen: Seq::empty() }
    }

    /// The ledger after one more event.
    pub open spec fn record(self, event: HubEvent) -> Ledger {
        match event {
            HubEvent::Publish(payload) => Ledger {
                hub: self.hub.publish(payload),
                published: self.published.push(payload),
                ..self
            },
            HubEvent::Subscribe => Ledger {
                hub: self.hub.subscribe(),
                seen: self.seen.push(Seq::empty()),
                ..self
            },
            HubEvent::Relay(id) => Ledger { hub: self.hub.relay(id), ..self },
            HubEvent::Take(id) => match self.hub.next_for(id) {
                Some(text) => Ledger {
                    hub: self.hub.take(id),
                    seen: self.seen.update(id, self.seen[id].push(text)),
                    ..self
                },
                None => self,
            },
        }
    }

    /// The ledger after these events, from the start.
    pub open spec fn after(events: Seq<HubEvent>) -> Ledger
        decreases events.len(),
    {
        if events.len() == 0 {
            Ledger::start()
        } else {
            Ledger::after(events.drop_last()).record(events.last())
        }
    }

    /// Everything that subscriber `id` has got hold of, in order: what it has
    /// seen, what waits in its outbound queue, and what its relay holds.
    pub open spec fn stream(self, id: int) -> Seq<Seq<char>> {
        self.seen[id] + self.hub.relays[id].outbound + self.hub.relays[id].held()
    }

    /// The streams of all subscribers.
    pub open spec fn streams(self) -> Seq<Seq<Seq<char>>> {
        Seq::new(self.hub.relays.len(), |id: int| self.stream(id))
    }

    /// Whether every published message has been seen by someone.
    pub open spec fn drained(self) -> bool {
        &&& self.hub.pending.len() == 0
        &&& forall|id: int|
            0 <= id < self.hub.relays.len() ==> (#[trigger] self.hub.relays[id]).outbound.len() == 0
                && self.hub.relays[id].in_hand is None
    }

    /// How far the hub is from being drained: the number of steps that the
    /// messages under way still need.
    pub open spec fn distance(self) -> nat
        recommends
            self.hub.relays.len() == 1,
    {
        3 * self.hub.pending.len() + self.hub.relays[0].outbound.len() + 2
            * self.hub.relays[0].held().len()
    }
}

proof fn total_of_push(streams: Seq<Seq<Seq<char>>>, stream: Seq<Seq<char>>)
    ensures
        total(streams.push(stream)) == total(streams).add(stream.to_multiset()),
{
    assert(streams.push(stream).drop_last() =~= streams);
}

proof fn total_of_extended(streams: Seq<Seq<Seq<char>>>, id: int, text: Seq<char>)
    requires
        0 <= id < streams.len(),
    ensures
        total(streams.update(id, streams[id].push(text))) == total(streams).insert(text),
    decreases streams.len(),
{
    broadcast use group_multiset_axioms;
    broadcast use to_multiset_build;

    let extended = streams.update(id, streams[id].push(text));
    if id == streams.len() - 1 {
        assert(extended.drop_last() =~= streams.drop_last());
        assert(total(extended) =~= total(streams).insert(text));
    } else {
        total_of_extended(streams.drop_last(), id, text);
        assert(extended.drop_last() =~= streams.drop_last().update(
            id,
            streams.drop_last()[id].push(text),
        ));
        assert(total(extended) =~= total(streams).insert(text));
    }
}

/// In every run each subscriber has an account of what it has seen, and no
/// outbound queue is over its capacity.
pub proof fn run_is_consistent(events: Seq<HubEvent>)
    ensures
        Ledger::after(events).seen.len() == Ledger::after(events).hub.relays.len(),
        Ledger::after(events).hub.bounded(),
    decreases events.len(),
{
    if events.len() > 0 {
        run_is_consistent(events.drop_last());
    }
}

/// Competing subscribers share the published messages without loss and
/// without duplication: in every run, with any number of subscribers, the
/// messages that the subscribers have got hold of and those that still wait
/// in the capture channel are together exactly the published messages, each
/// as often as it was published.
pub proof fn subscribers_share_every_message_once(events: Seq<HubEvent>)
    ensures
        total(Ledger::after(events).streams()).add(
            texts(Ledger::after(events).hub.pending).to_multiset(),
        ) == texts(Ledger::after(events).published).to_multiset(),
    decreases events.len(),
{
    broadcast use group_multiset_axioms;
    broadcast use group_to_multiset_ensures;

    let now = Ledger::after(events);
    if events.len() == 0 {
        assert(now.streams() =~= Seq::empty());
        assert(texts(now.hub.pending) =~= Seq::empty());
        assert(texts(now.published) =~= Seq::empty());
        assert(total(now.streams()).add(texts(now.hub.pending).to_multiset()) =~= texts(
            now.published,
        ).to_multiset());
    } else {
        let before = Ledger::after(events.drop_last());
        subscribers_share_every_message_once(events.drop_last());
        run_is_consistent(events.drop_last());
        let waiting = texts(before.hub.pending);
        match events.last() {
            HubEvent::Publish(payload) => {
                assert(now.streams() =~= before.streams());
                assert(texts(now.hub.pending) =~= waiting.push(lossy_text(payload)));
                assert(texts(now.published) =~= texts(before.published).push(lossy_text(payload)));
                assert(total(now.streams()).add(texts(now.hub.pending).to_multiset()) =~= texts(
                    now.published,
                ).to_multiset());
            },
            HubEvent::Subscribe => {
                let fresh = Seq::<Seq<char>>::empty();
                assert(now.stream(before.hub.relays.len() as int) =~= fresh);
                assert(now.streams() =~= before.streams().push(fresh));
                total_of_push(before.streams(), fresh);
                assert(total(now.streams()) =~= total(before.streams()));
            },
            HubEvent::Relay(id) => {
                match before.hub.relay_outcome(id) {
                    RelayOutcome::Received => {
                        let text = lossy_text(before.hub.pending[0]);
                        assert(now.stream(id) =~= before.stream(id).push(text));
                        assert(now.streams() =~= before.streams().update(
                            id,
                            before.streams()[id].push(text),
                        ));
                        total_of_extended(before.streams(), id, text);
                        assert(texts(now.hub.pending) =~= waiting.remove(0));
                        assert(waiting[0] == text);
                        assert(waiting.contains(text));
                        assert(total(now.streams()).add(texts(now.hub.pending).to_multiset())
                            =~= texts(now.published).to_multiset());
                    },
                    RelayOutcome::Delivered => {
                        assert(now.stream(id) =~= before.stream(id));
                        assert(now.streams() =~= before.streams());
                    },
                    _ => {},
                }
            },
            HubEvent::Take(id) => {
                if before.hub.next_for(id) is Some {
                    assert(now.stream(id) =~= before.stream(id));
                    assert(now.streams() =~= before.streams());
                }
            },
        }
    }
}

/// With no subscriber, every published message still waits in the capture
/// channel, in the order of publication. With exactly one subscriber, what
/// that subscriber has got hold of, followed by what still waits, is the
/// published messages in the order of publication: the one subscriber misses
/// nothing and sees nothing out of order.
pub proof fn single_subscriber_keeps_order(events: Seq<HubEvent>)
    requires
        Ledger::after(events).hub.relays.len() <= 1,
    ensures
        Ledger::after(events).hub.relays.len() == 0 ==> texts(Ledger::after(events).hub.pending)
            == texts(Ledger::after(events).published),
        Ledger::after(events).hub.relays.len() == 1 ==> Ledger::after(events).stream(0) + texts(
            Ledger::after(events).hub.pending,
        ) == texts(Ledger::after(events).published),
    decreases events.len(),
{
    let now = Ledger::after(events);
    if events.len() == 0 {
        assert(texts(now.hub.pending) =~= texts(now.published));
    } else {
        let before = Ledger::after(events.drop_last());
        single_subscriber_keeps_order(events.drop_last());
        run_is_consistent(events.drop_last());
        let waiting = texts(before.hub.pending);
        match events.last() {
            HubEvent::Publish(payload) => {
                assert(texts(now.hub.pending) =~= waiting.push(lossy_text(payload)));
                assert(texts(now.published) =~= texts(before.published).push(lossy_text(payload)));
                if now.hub.relays.len() == 1 {
                    assert(now.stream(0) + texts(now.hub.pending) =~= (before.stream(0)
                        + waiting).push(lossy_text(payload)));
                }
            },
            HubEvent::Subscribe => {
                assert(now.stream(0) =~= Seq::<Seq<char>>::empty());
                assert(now.stream(0) + texts(now.hub.pending) =~= waiting);
            },
            HubEvent::Relay(id) => {
                if before.hub.relay_outcome(id) == RelayOutcome::Received {
                    assert(texts(now.hub.pending) =~= waiting.remove(0));
                    assert(now.stream(0) + texts(now.hub.pending) =~= before.stream(0) + waiting);
                } else if before.hub.relay_outcome(id) == RelayOutcome::Delivered {
                    assert(now.stream(0) =~= before.stream(0));
                }
            },
            HubEvent::Take(id) => {
                if before.hub.next_for(id) is Some {
                    assert(now.stream(0) =~= before.stream(0));
                }
            },
        }
    }
}

/// With exactly one subscriber, what it has seen so far is the beginning of
/// the published messages, and once the hub is drained it has seen them all.
pub proof fn single_subscriber_sees_all(events: Seq<HubEvent>)
    requires
        Ledger::after(events).hub.relays.len() == 1,
    ensures
        Ledger::after(events).seen[0].is_prefix_of(texts(Ledger::after(events).published)),
        Ledger::after(events).drained() ==> Ledger::after(events).seen[0] == texts(
            Ledger::after(events).published,
        ),
{
    let now = Ledger::after(events);
    single_subscriber_keeps_order(events);
    run_is_consistent(events);
    let whole = now.stream(0) + texts(now.hub.pending);
    assert(now.seen[0] =~= whole.subrange(0, now.seen[0].len() as int));
    if now.drained() {
        assert(now.hub.relays[0].outbound.len() == 0);
        assert(now.seen[0] =~= whole);
    }
}

/// With exactly one subscriber the hub never comes to a standstill before it
/// is drained: either the relay can take a step that moves a message, or the
/// subscriber finds a message on its stream. Each such step brings the hub
/// nearer to being drained.
pub proof fn single_subscriber_makes_progress(ledger: Ledger)
    requires
        ledger.hub.relays.len() == 1,
        ledger.hub.bounded(),
        !ledger.drained(),
    ensures
        ledger.hub.relay_outcome(0) == RelayOutcome::Received || ledger.hub.relay_outcome(0)
            == RelayOutcome::Delivered || ledger.hub.next_for(0) is Some,
        ledger.hub.relay_outcome(0) == RelayOutcome::Received || ledger.hub.relay_outcome(0)
            == RelayOutcome::Delivered ==> ledger.record(HubEvent::Relay(0)).distance()
            < ledger.distance(),
        ledger.hub.next_for(0) is Some ==> ledger.record(HubEvent::Take(0)).distance()
            < ledger.distance(),
{
}

} // verus!
