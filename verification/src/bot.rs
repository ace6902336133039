//! The lifecycle of a bot: one supervised worker process and its metadata.
//!
//! A bot decides; its caller acts. `initialize`, `start` and `stop` each
//! return the action that the operating system has to carry out, and
//! `started` records what a spawn gave back.

use vstd::prelude::*;
use crate::capture::SafeIoSender;
use crate::engine::BotEngine;
use crate::failure::OsFailure;
use crate::identity::fresh_identifier;
use crate::identity::is_identifier;
use crate::status::BotStatus;

verus! {

/// The identifier of a bot: the text of a UUID.
pub type BotId = String;

/// What the supervisor keeps of a process it spawned.
#[derive(Clone, Copy, Debug, PartialEq, Eq, Structural)]
pub struct ProcessHandle {
    /// The operating system's identifier of the process.
    pub pid: u32,
}

/// A supervised worker process and its lifecycle metadata.
pub struct Bot {
    pub id: BotId,
    pub name: String,
    /// The live process, if there is one. A bot never holds more than one.
    pub process: Option<ProcessHandle>,
    /// The workspace directory, if one is configured.
    pub absolute_path: Option<String>,
    pub engine: BotEngine,
    pub status: BotStatus,
}

/// A bot as a mathematical value.
pub struct BotView {
    pub id: Seq<char>,
    pub name: Seq<char>,
    pub process: Option<ProcessHandle>,
    pub absolute_path: Option<Seq<char>>,
    pub engine: BotEngine,
    pub status: BotStatus,
}

impl View for Bot {
    type V = BotView;

    open spec fn view(&self) -> BotView {
        BotView {
            id: self.id@,
            name: self.name@,
            process: self.process,
            absolute_path: match self.absolute_path {
                Some(path) => Some(path@),
                None => None,
            },
            engine: self.engine,
            status: self.status,
        }
    }
}

impl BotView {
    /// A bot that was only created: no workspace, no process, no status yet.
    pub open spec fn created(id: Seq<char>, name: Seq<char>) -> BotView {
        BotView {
            id,
            name,
            process: None,
            absolute_path: None,
            engine: BotEngine::Node,
            status: BotStatus::Unset,
        }
    }

    /// Whether `start` asks for a process: a workspace is configured and no
    /// process is held.
    pub open spec fn wants_spawn(self) -> bool {
        self.absolute_path is Some && self.process is None
    }

    /// This bot holding `process`, all else unchanged.
    pub open spec fn holding(self, process: Option<ProcessHandle>) -> BotView {
        BotView { process, ..self }
    }
}

/// What the caller of `start` supplies besides the arguments.
pub struct StartBotOptions {
    /// The sink that receives the captured output of the process.
    pub io_sender: SafeIoSender,
}

/// What `initialize` asks of the file system.
#[derive(Debug)]
pub enum InitializeAction {
    /// No workspace is configured: there is nothing to create.
    Refuse,
    /// Create this one directory; it must not exist yet.
    CreateDirectory { path: String },
}

/// What `start` asks of the operating system.
pub enum StartAction {
    /// Nothing to do: the start succeeds as it stands.
    Nothing,
    /// Spawn `program` with `arguments`, in this order and not through a
    /// shell, with standard output and standard error as pipes, and drain
    /// both pipes into `io_sender`.
    Spawn { program: String, arguments: Vec<String>, io_sender: SafeIoSender },
}

/// What `stop` asks of the operating system.
#[derive(Clone, Copy, Debug, PartialEq, Eq, Structural)]
pub enum StopAction {
    /// No process was held: the stop succeeds as it stands.
    Nothing,
    /// Terminate this process by force. The bot has let go of it already.
    Kill { process: ProcessHandle },
}

impl InitializeAction {
    /// Whether the initialisation succeeded, given whether the directory was
    /// created.
    pub open spec fn succeeds(self, created: bool) -> bool {
        self is CreateDirectory && created
    }

    /// Returns the result of the initialisation once the caller has tried to
    /// create the directory; `created` is ignored where nothing was asked.
    pub fn result(&self, created: bool) -> (ok: bool)
        ensures
            ok == self.succeeds(created),
    {
        match self {
            InitializeAction::Refuse => false,
            InitializeAction::CreateDirectory { .. } => created,
        }
    }
}

impl Bot {
    /// Creates a bot under a given identifier, with no workspace, no process
    /// and no status yet.
    pub fn with_id(id: BotId, name: &str) -> (bot: Bot)
        ensures
            bot@ == BotView::created(id@, name@),
            bot.id == id,
    {
        Bot {
            id,
            name: name.to_owned(),
            engine: BotEngine::Node,
            status: BotStatus::Unset,
            absolute_path: None,
            process: None,
        }
    }

    /// Creates a bot under a fresh random identifier.
    pub fn new(name: &str) -> (bot: Bot)
        ensures
            is_identifier(bot.id@),
            bot@ == BotView::created(bot.id@, name@),
    {
        Bot::with_id(fresh_identifier(), name)
    }

    /// Decides how the workspace is materialised: by creating the configured
    /// directory, or not at all where none is configured.
    pub fn initialize(&self) -> (action: InitializeAction)
        ensures
            match self@.absolute_path {
                None => action is Refuse,
                Some(path) => action is CreateDirectory && action->path@ == path,
            },
    {
        match &self.absolute_path {
            None => InitializeAction::Refuse,
            Some(path) => InitializeAction::CreateDirectory { path: path.clone() },
        }
    }

    /// Decides whether a process has to be spawned. Without a workspace, or
    /// with a process already held, nothing is asked for; otherwise the
    /// engine's command is to be spawned with the arguments as given.
    pub fn start(&self, arguments: Vec<String>, options: StartBotOptions) -> (action: StartAction)
        ensures
            !self@.wants_spawn() ==> action is Nothing,
            self@.wants_spawn() ==> {
                &&& action is Spawn
                &&& action->program@ == self.engine.command()
                &&& action->arguments == arguments
                &&& action->io_sender == options.io_sender
            },
    {
        if self.absolute_path.is_none() {
            return StartAction::Nothing;
        }
        if self.process.is_none() {
            StartAction::Spawn {
                program: self.engine.as_string(),
                arguments,
                io_sender: options.io_sender,
            }
        } else {
            StartAction::Nothing
        }
    }

    /// Records the outcome of the spawn that `start` asked for. A spawned
    /// process becomes the bot's process; a failure leaves the bot as it was
    /// and is handed back. The status is not touched.
    pub fn started(&mut self, spawned: Result<ProcessHandle, OsFailure>) -> (result: Result<
        (),
        OsFailure,
    >)
        requires
            old(self).process is None,
        ensures
            match spawned {
                Ok(process) => result is Ok && *final(self) == (Bot {
                    process: Some(process),
                    ..*old(self)
                }),
                Err(failure) => result == Err::<(), OsFailure>(failure) && *final(self) == *old(self),
            },
            final(self)@ == old(self)@.holding(
                match spawned {
                    Ok(process) => Some(process),
                    Err(_) => None,
                },
            ),
    {
        match spawned {
            Ok(process) => {
                self.process = Some(process);
                Ok(())
            },
            Err(failure) => Err(failure),
        }
    }

    /// Lets go of the bot's process and asks for it to be terminated. Without
    /// a process nothing changes and nothing is asked for. Afterwards the bot
    /// holds no process, whatever becomes of the termination.
    pub fn stop(&mut self) -> (action: StopAction)
        ensures
            *final(self) == (Bot { process: None, ..*old(self) }),
            final(self)@ == old(self)@.holding(None),
            action == match old(self).process {
                Some(process) => StopAction::Kill { process },
                None => StopAction::Nothing,
            },
    {
        match self.process.take() {
            Some(process) => StopAction::Kill { process },
            None => StopAction::Nothing,
        }
    }
}

/// A bot that holds a process asks for no other: `start` after a successful
/// start is answered with nothing to do.
pub proof fn holder_asks_for_nothing(bot: BotView, process: ProcessHandle)
    ensures
        !bot.holding(Some(process)).wants_spawn(),
{
}

/// A bot without a workspace never asks for a process, whatever else it holds.
pub proof fn unconfigured_asks_for_nothing(bot: BotView)
    requires
        bot.absolute_path is None,
    ensures
        !bot.wants_spawn(),
{
}

/// Stopping twice leaves a bot as stopping once does.
pub proof fn stop_twice_is_stop_once(bot: BotView)
    ensures
        bot.holding(None).holding(None) == bot.holding(None),
        bot.holding(None).process is None,
{
}

} // verus!
