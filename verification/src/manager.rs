//! The registry of bots and the shared receiving end of the capture channel.

use vstd::prelude::*;
use crate::bot::Bot;
use crate::bot::BotId;
use crate::capture::IOMessage;
use std::sync::mpsc::Receiver;
use std::sync::Arc;
use std::sync::Mutex;

verus! {

/// The receiving half of the capture channel, guarded so that those who hold
/// it take turns receiving.
pub type SharedReceiver = Arc<Mutex<Receiver<IOMessage>>>;

/// The registry under the one lock that serialises all access to it.
pub type SharedBotManager = Arc<Mutex<BotManager>>;

/// All bots of a supervisor, each under its identifier, and the receiving end
/// of the capture channel.
pub struct BotManager {
    pub(crate) bots: Vec<Bot>,
    pub(crate) stdout_receiver: SharedReceiver,
}

impl BotManager {
    /// The registered bots, in the order in which they were added.
    pub closed spec fn bots(self) -> Seq<Bot> {
        self.bots@
    }

    /// The receiving end of the capture channel that this registry holds.
    pub closed spec fn receiver(self) -> SharedReceiver {
        self.stdout_receiver
    }

    /// The identifiers of the registered bots, in the same order.
    pub open spec fn ids(self) -> Seq<Seq<char>> {
        self.bots().map_values(|bot: Bot| bot.id@)
    }

    /// No identifier is registered twice.
    pub open spec fn wf(self) -> bool {
        self.ids().no_duplicates()
    }

    /// Creates an empty registry around the receiving end of the capture
    /// channel.
    pub fn new(stdout_receiver: SharedReceiver) -> (manager: BotManager)
        ensures
            manager.wf(),
            manager.bots() == Seq::<Bot>::empty(),
            manager.receiver() == stdout_receiver,
    {
        let manager = BotManager { bots: Vec::new(), stdout_receiver };
        assert(manager.ids() =~= Seq::<Seq<char>>::empty());
        manager
    }

    /// Returns the receiving end of the capture channel.
    pub fn stdout_receiver(&self) -> (receiver: &SharedReceiver)
        ensures
            *receiver == self.receiver(),
    {
        &self.stdout_receiver
    }

    /// Returns the number of registered bots.
    pub fn len(&self) -> (count: usize)
        ensures
            count == self.bots().len(),
    {
        self.bots.len()
    }

    /// Finds the place of the bot registered under `id`.
    pub fn position(&self, id: &BotId) -> (place: Option<usize>)
        ensures
            match place {
                Some(i) => i < self.bots().len() && self.ids()[i as int] == id@,
                None => !self.ids().contains(id@),
            },
    {
        let mut i: usize = 0;
        while i < self.bots.len()
            invariant
                i <= self.bots@.len(),
                forall|k: int| 0 <= k < i ==> self.ids()[k] != id@,
            decreases self.bots@.len() - i,
        {
            if self.bots[i].id == *id {
                return Some(i);
            }
            i += 1;
        }
        None
    }

    /// Returns the bot registered under `id`, if there is one.
    pub fn get(&self, id: &BotId) -> (found: Option<&Bot>)
        ensures
            match found {
                Some(bot) => self.bots().contains(*bot) && bot.id@ == id@,
                None => !self.ids().contains(id@),
            },
    {
        match self.position(id) {
            Some(i) => {
                assert(self.ids()[i as int] == self.bots()[i as int].id@);
                Some(&self.bots[i])
            },
            None => None,
        }
    }

    /// Registers a bot under its identifier. A bot whose identifier is taken
    /// is handed back and the registry stays as it was.
    pub fn insert(&mut self, bot: Bot) -> (refused: Option<Bot>)
        requires
            old(self).wf(),
        ensures
            final(self).wf(),
            final(self).receiver() == old(self).receiver(),
            old(self).ids().contains(bot.id@) ==> refused == Some(bot) && final(self).bots()
                == old(self).bots(),
            !old(self).ids().contains(bot.id@) ==> refused is None && final(self).bots() == old(self).bots().push(bot),
    {
        match self.position(&bot.id) {
            Some(_) => Some(bot),
            None => {
                proof {
                    let before = self.ids();
                    let after = self.bots@.push(bot).map_values(|b: Bot| b.id@);
                    assert(after =~= before.push(bot.id@));
                    assert forall|i: int, j: int|
                        0 <= i < after.len() && 0 <= j < after.len() && i != j implies after[i]
                        != after[j] by {
                        if i < before.len() && j < before.len() {
                            assert(before[i] != before[j]);
                        } else if i < before.len() {
                            assert(before.contains(before[i]));
                        } else {
                            assert(before.contains(before[j]));
                        }
                    }
                }
                self.bots.push(bot);
                None
            },
        }
    }

    /// Takes the bot registered under `id` out of the registry; the others
    /// keep their order.
    pub fn remove(&mut self, id: &BotId) -> (removed: Option<Bot>)
        requires
            old(self).wf(),
        ensures
            final(self).wf(),
            final(self).receiver() == old(self).receiver(),
            !final(self).ids().contains(id@),
            match removed {
                Some(bot) => {
                    &&& bot.id@ == id@
                    &&& exists|i: int|
                        0 <= i < old(self).bots().len() && old(self).bots()[i] == bot && final(self).bots() == old(self).bots().remove(i)
                },
                None => !old(self).ids().contains(id@) && final(self).bots() == old(self).bots(),
            },
    {
        match self.position(id) {
            Some(i) => {
                let ghost before = self.ids();
                let bot = self.bots.remove(i);
                proof {
                    let after = self.ids();
                    assert(after =~= before.remove(i as int));
                    assert forall|a: int, b: int|
                        0 <= a < after.len() && 0 <= b < after.len() && a != b implies after[a]
                        != after[b] by {
                        let a0 = if a < i { a } else { a + 1 };
                        let b0 = if b < i { b } else { b + 1 };
                        assert(before[a0] != before[b0]);
                    }
                    assert forall|a: int| 0 <= a < after.len() implies after[a] != id@ by {
                        let a0 = if a < i { a } else { a + 1 };
                        assert(before[a0] != before[i as int]);
                    }
                }
                Some(bot)
            },
            None => None,
        }
    }
}

} // verus!
