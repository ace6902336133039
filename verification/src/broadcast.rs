//! The subscription service: what a subscriber is given, and what a relay
//! does with each message it receives.

use vstd::prelude::*;
use vstd::utf8::decode_utf8;
use vstd::utf8::valid_utf8;
use crate::capture::IOMessage;
use crate::manager::SharedBotManager;
use crate::manager::SharedReceiver;
use crate::text::decode_lossy;
use crate::text::lossy_text;

verus! {

/// The number of messages that may wait in the outbound channel of one
/// subscriber before its relay has to wait.
pub const SUBSCRIBER_CAPACITY: usize = 4;

/// One relayed message as a subscriber sees it: the text of a captured chunk.
#[derive(Debug)]
pub struct BroadcastMessage {
    pub message: String,
}

impl View for BroadcastMessage {
    type V = Seq<char>;

    open spec fn view(&self) -> Seq<char> {
        self.message@
    }
}

/// A receive from the capture channel that gave no message, as when every
/// sender is gone.
#[derive(Clone, Copy, Debug, PartialEq, Eq, Structural)]
pub struct ReceiveError;

/// What a relay does after one receive from the capture channel.
#[derive(Debug)]
pub enum RelayAction {
    /// Send this message into the subscriber's outbound channel, waiting for
    /// room if need be, then receive again. A failed send is ignored.
    Forward(BroadcastMessage),
    /// Nothing to send: receive again.
    Continue,
}

/// Why a subscription was not set up.
#[derive(Debug)]
pub enum SubscribeError {
    /// The shared state could not be reached; the text says what failed.
    Internal(String),
}

/// What a new subscriber's relay works with.
pub struct Subscription {
    /// The shared receiving end of the capture channel.
    pub receiver: SharedReceiver,
    /// The capacity to give the subscriber's outbound channel.
    pub capacity: usize,
}

/// The text of the failure that a subscriber is told when the registry's lock
/// cannot be taken.
pub open spec fn lock_failure_text() -> Seq<char> {
    "Failed to lock bot manager"@
}

/// The outcome of setting up a subscription, given what taking the registry's
/// lock gave: the receiving end, or nothing where the lock is poisoned.
pub open spec fn granted(locked: Option<SharedReceiver>, outcome: Result<
    Subscription,
    SubscribeError,
>) -> bool {
    match locked {
        Some(receiver) => outcome is Ok && outcome->Ok_0.receiver == receiver
            && outcome->Ok_0.capacity == SUBSCRIBER_CAPACITY,
        None => outcome is Err && outcome->Err_0 is Internal && outcome->Err_0->Internal_0@
            == lock_failure_text(),
    }
}

/// Makes the message that carries `text` to a subscriber.
pub fn forward_text(text: String) -> (action: RelayAction)
    ensures
        action == RelayAction::Forward(BroadcastMessage { message: text }),
{
    RelayAction::Forward(BroadcastMessage { message: text })
}

/// Decides what a relay does with the outcome of one receive. A message is
/// forwarded as text, its bytes decoded lossily: well-formed UTF-8 comes out
/// as it is, anything else with replacement characters. A failed receive is
/// passed over and the relay goes on.
pub fn relay_step(received: Result<IOMessage, ReceiveError>) -> (action: RelayAction)
    ensures
        match received {
            Ok(io) => {
                &&& action is Forward
                &&& action->Forward_0@ == lossy_text(io@)
                &&& valid_utf8(io@) ==> action->Forward_0@ == decode_utf8(io@)
            },
            Err(_) => action is Continue,
        },
{
    match received {
        Ok(io) => forward_text(decode_lossy(io.data.as_slice())),
        Err(_) => RelayAction::Continue,
    }
}

/// Calls `std::sync::Mutex::lock` on the registry and, where the lock is
/// granted, clones the handle to the receiving end that the registry holds.
///
/// Trusted: nothing is claimed of the result. Whether the lock is granted
/// depends on what other threads did while holding it.
#[verifier::external_body]
fn lock_for_receiver(manager: &SharedBotManager) -> (locked: Option<SharedReceiver>) {
    match manager.lock() {
        Ok(guard) => Some(guard.stdout_receiver.clone()),
        Err(_) => None,
    }
}

/// The service that hands out subscriptions to the captured output.
pub struct MyBroadcastService {
    pub bot_manager: SharedBotManager,
}

impl MyBroadcastService {
    /// Creates the service over a shared registry.
    pub fn new(bot_manager: SharedBotManager) -> (service: MyBroadcastService)
        ensures
            service.bot_manager == bot_manager,
    {
        MyBroadcastService { bot_manager }
    }

    /// Sets up a subscription from what taking the registry's lock gave. With
    /// the receiving end in hand the subscription is granted, with an
    /// outbound capacity of `SUBSCRIBER_CAPACITY`; without it the subscriber
    /// is told of an internal failure.
    pub fn grant(locked: Option<SharedReceiver>) -> (outcome: Result<Subscription, SubscribeError>)
        ensures
            granted(locked, outcome),
    {
        match locked {
            Some(receiver) => Ok(Subscription { receiver, capacity: SUBSCRIBER_CAPACITY }),
            None => Err(SubscribeError::Internal("Failed to lock bot manager".to_owned())),
        }
    }

    /// Takes the registry's lock just long enough to clone the handle to the
    /// receiving end, and sets up a subscription from it. The lock decides
    /// between the two outcomes; each is as `grant` gives it.
    pub fn subscribe(&self) -> (outcome: Result<Subscription, SubscribeError>)
        ensures
            match outcome {
                Ok(subscription) => subscription.capacity == SUBSCRIBER_CAPACITY,
                Err(error) => error is Internal && error->Internal_0@ == lock_failure_text(),
            },
    {
        MyBroadcastService::grant(lock_for_receiver(&self.bot_manager))
    }
}

} // verus!
