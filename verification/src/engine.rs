//! The runtimes that can execute a bot.

use vstd::prelude::*;

verus! {

/// The closed set of supported runtimes.
#[derive(Clone, Copy, Debug, PartialEq, Eq, Structural)]
pub enum BotEngine {
    /// A Node-style JavaScript runtime.
    Node,
}

impl BotEngine {
    /// The command by which this engine is invoked.
    pub open spec fn command(self) -> Seq<char> {
        match self {
            BotEngine::Node => "node"@,
        }
    }

    /// Returns the command by which this engine is invoked.
    pub fn as_string(&self) -> (command: String)
        ensures
            command@ == self.command(),
    {
        match self {
            BotEngine::Node => "node".to_owned(),
        }
    }
}

} // verus!
