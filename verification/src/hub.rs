//! The broadcast hub: the capture channel and the relays that drain it.
//!
//! Captured messages wait in one queue. Every subscriber has a relay of its
//! own, which takes messages from that queue one at a time, turns each into
//! text and puts it into the subscriber's bounded outbound queue. The relays
//! compete: a message goes to the relay that takes it, and to no other.

use vstd::prelude::*;
use crate::broadcast::relay_step;
use crate::broadcast::BroadcastMessage;
use crate::broadcast::RelayAction;
use crate::broadcast::SUBSCRIBER_CAPACITY;
use crate::capture::IOMessage;
use crate::text::lossy_text;
use std::collections::VecDeque;

verus! {

/// One relay as a mathematical value.
pub struct RelayState {
    /// The message that the relay has received and not yet passed on.
    pub in_hand: Option<Seq<char>>,
    /// The messages that wait for the subscriber, oldest first.
    pub outbound: Seq<Seq<char>>,
}

/// The hub as a mathematical value.
pub struct HubState {
    /// The payloads that wait in the capture channel, oldest first.
    pub pending: Seq<Seq<u8>>,
    /// The relays, in the order in which their subscribers came.
    pub relays: Seq<RelayState>,
}

/// What one step of a relay did.
#[derive(Clone, Copy, Debug, PartialEq, Eq, Structural)]
pub enum RelayOutcome {
    /// There is no subscriber of that number.
    Unknown,
    /// The relay took the oldest waiting message from the capture channel.
    Received,
    /// The relay passed the message in its hand on to the outbound queue.
    Delivered,
    /// The relay holds a message and the outbound queue is full: it waits.
    Blocked,
    /// The relay holds nothing and no message waits: it waits.
    Idle,
}

impl RelayState {
    /// A relay that has done nothing yet.
    pub open spec fn fresh() -> RelayState {
        RelayState { in_hand: None, outbound: Seq::empty() }
    }

    /// The message in hand, as a sequence of at most one.
    pub open spec fn held(self) -> Seq<Seq<char>> {
        match self.in_hand {
            Some(text) => seq![text],
            None => Seq::empty(),
        }
    }

    /// Whether the outbound queue has room for one more message.
    pub open spec fn has_room(self) -> bool {
        self.outbound.len() < SUBSCRIBER_CAPACITY
    }
}

impl HubState {
    /// The hub before anything happened.
    pub open spec fn empty() -> HubState {
        HubState { pending: Seq::empty(), relays: Seq::empty() }
    }

    /// Whether `id` numbers a subscriber.
    pub open spec fn knows(self, id: int) -> bool {
        0 <= id < self.relays.len()
    }

    /// The hub after a payload was put on the capture channel.
    pub open spec fn publish(self, payload: Seq<u8>) -> HubState {
        HubState { pending: self.pending.push(payload), ..self }
    }

    /// The hub after a subscriber came; its number is the former count.
    pub open spec fn subscribe(self) -> HubState {
        HubState { relays: self.relays.push(RelayState::fresh()), ..self }
    }

    /// What one step of relay `id` does.
    pub open spec fn relay_outcome(self, id: int) -> RelayOutcome {
        if !self.knows(id) {
            RelayOutcome::Unknown
        } else if self.relays[id].in_hand is Some {
            if self.relays[id].has_room() {
                RelayOutcome::Delivered
            } else {
                RelayOutcome::Blocked
            }
        } else if self.pending.len() > 0 {
            RelayOutcome::Received
        } else {
            RelayOutcome::Idle
        }
    }

    /// The hub after one step of relay `id`.
    pub open spec fn relay(self, id: int) -> HubState {
        match self.relay_outcome(id) {
            RelayOutcome::Received => HubState {
                pending: self.pending.remove(0),
                relays: self.relays.update(
                    id,
                    RelayState { in_hand: Some(lossy_text(self.pending[0])), ..self.relays[id] },
                ),
            },
            RelayOutcome::Delivered => HubState {
                relays: self.relays.update(
                    id,
                    RelayState {
                        in_hand: None,
                        outbound: self.relays[id].outbound.push(self.relays[id].in_hand->0),
                    },
                ),
                ..self
            },
            _ => self,
        }
    }

    /// The message that subscriber `id` finds next on its stream, if any.
    pub open spec fn next_for(self, id: int) -> Option<Seq<char>> {
        if self.knows(id) && self.relays[id].outbound.len() > 0 {
            Some(self.relays[id].outbound[0])
        } else {
            None
        }
    }

    /// The hub after subscriber `id` took the next message from its stream.
    pub open spec fn take(self, id: int) -> HubState {
        if self.next_for(id) is Some {
            HubState {
                relays: self.relays.update(
                    id,
                    RelayState { outbound: self.relays[id].outbound.remove(0), ..self.relays[id] },
                ),
                ..self
            }
        } else {
            self
        }
    }

    /// No outbound queue holds more than its capacity.
    pub open spec fn bounded(self) -> bool {
        forall|id: int| 0 <= id < self.relays.len() ==> (#[trigger] self.relays[id]).outbound.len()
            <= SUBSCRIBER_CAPACITY
    }
}

/// The relay of one subscriber.
struct Relay {
    in_hand: Option<BroadcastMessage>,
    outbound: VecDeque<BroadcastMessage>,
}

impl View for Relay {
    type V = RelayState;

    closed spec fn view(&self) -> RelayState {
        RelayState {
            in_hand: match self.in_hand {
                Some(message) => Some(message@),
                None => None,
            },
            outbound: self.outbound@.map_values(|message: BroadcastMessage| message@),
        }
    }
}

/// The capture channel together with the relays of all subscribers.
pub struct BroadcastHub {
    pending: VecDeque<IOMessage>,
    relays: Vec<Relay>,
}

impl View for BroadcastHub {
    type V = HubState;

    closed spec fn view(&self) -> HubState {
        HubState {
            pending: self.pending@.map_values(|message: IOMessage| message@),
            relays: self.relays@.map_values(|relay: Relay| relay@),
        }
    }
}

impl BroadcastHub {
    /// The invariant of a hub: no outbound queue is over its capacity.
    pub open spec fn wf(self) -> bool {
        self@.bounded()
    }

    /// Creates a hub with no message and no subscriber.
    pub fn new() -> (hub: BroadcastHub)
        ensures
            hub.wf(),
            hub@ == HubState::empty(),
    {
        let hub = BroadcastHub { pending: VecDeque::new(), relays: Vec::new() };
        assert(hub@.pending =~= Seq::empty());
        assert(hub@.relays =~= Seq::empty());
        hub
    }

    /// Returns the number of messages that wait in the capture channel.
    pub fn pending(&self) -> (count: usize)
        ensures
            count == self@.pending.len(),
    {
        self.pending.len()
    }

    /// Returns the number of subscribers.
    pub fn subscribers(&self) -> (count: usize)
        ensures
            count == self@.relays.len(),
    {
        self.relays.len()
    }

    /// Puts a captured message on the capture channel, behind those that
    /// wait there.
    pub fn publish(&mut self, message: IOMessage)
        requires
            old(self).wf(),
        ensures
            final(self).wf(),
            final(self)@ == old(self)@.publish(message@),
    {
        self.pending.push_back(message);
        assert(self@.pending =~= old(self)@.pending.push(message@));
    }

    /// Adds a subscriber with a relay of its own and returns its number.
    pub fn subscribe(&mut self) -> (id: usize)
        requires
            old(self).wf(),
        ensures
            final(self).wf(),
            id == old(self)@.relays.len(),
            final(self)@ == old(self)@.subscribe(),
    {
        let id = self.relays.len();
        let relay = Relay { in_hand: None, outbound: VecDeque::new() };
        assert(relay@.outbound =~= Seq::empty());
        self.relays.push(relay);
        assert(self@.relays =~= old(self)@.relays.push(RelayState::fresh()));
        id
    }

    /// Runs one step of the relay of subscriber `id`. A relay with a message
    /// in hand passes it on if the outbound queue has room and waits if not;
    /// a relay with empty hands takes the oldest waiting message and turns it
    /// into text, or waits if none is there.
    pub fn relay(&mut self, id: usize) -> (outcome: RelayOutcome)
        requires
            old(self).wf(),
        ensures
            final(self).wf(),
            outcome == old(self)@.relay_outcome(id as int),
            final(self)@ == old(self)@.relay(id as int),
    {
        if id >= self.relays.len() {
            return RelayOutcome::Unknown;
        }
        let ghost before = self@;
        let relay = &mut self.relays[id];
        match relay.in_hand.take() {
            Some(message) => {
                if relay.outbound.len() < SUBSCRIBER_CAPACITY {
                    let ghost waiting = relay.outbound@;
                    relay.outbound.push_back(message);
                    assert(relay.outbound@.map_values(|m: BroadcastMessage| m@)
                        =~= waiting.map_values(|m: BroadcastMessage| m@).push(message@));
                    assert(self@.relays =~= before.relay(id as int).relays);
                    RelayOutcome::Delivered
                } else {
                    relay.in_hand = Some(message);
                    assert(self@.relays =~= before.relays);
                    RelayOutcome::Blocked
                }
            },
            None => {
                match self.pending.pop_front() {
                    Some(io) => {
                        match relay_step(Ok(io)) {
                            RelayAction::Forward(message) => {
                                relay.in_hand = Some(message);
                            },
                            RelayAction::Continue => {},
                        }
                        assert(self@.pending =~= before.pending.remove(0));
                        assert(self@.relays =~= before.relay(id as int).relays);
                        RelayOutcome::Received
                    },
                    None => {
                        assert(self@.relays =~= before.relays);
                        assert(self@.pending =~= before.pending);
                        RelayOutcome::Idle
                    },
                }
            },
        }
    }

    /// Takes the next message from the stream of subscriber `id`: the oldest
    /// in its outbound queue. Gives nothing where that queue is empty or no
    /// such subscriber exists, and then changes nothing.
    pub fn next(&mut self, id: usize) -> (message: Option<BroadcastMessage>)
        requires
            old(self).wf(),
        ensures
            final(self).wf(),
            final(self)@ == old(self)@.take(id as int),
            match message {
                Some(message) => old(self)@.next_for(id as int) == Some(message@),
                None => old(self)@.next_for(id as int) is None,
            },
    {
        if id >= self.relays.len() {
            return None;
        }
        let ghost before = self@;
        let relay = &mut self.relays[id];
        let ghost waiting = relay.outbound@;
        let message = relay.outbound.pop_front();
        proof {
            if message is Some {
                assert(relay.outbound@.map_values(|m: BroadcastMessage| m@) =~= waiting.map_values(
                    |m: BroadcastMessage| m@,
                ).remove(0));
            }
            assert(self@.relays =~= before.take(id as int).relays);
        }
        message
    }
}

} // verus!
