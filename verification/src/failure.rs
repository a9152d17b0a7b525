//! What can go wrong in the runloops, and the text it is reported with.

use vstd::prelude::*;
use vstd::string::*;

verus! {

/// A failure, with the text of the error that caused it.
#[derive(Debug)]
pub enum Failure {
    /// The Geyser runloop could not be started.
    GeyserStart(String),
    /// The thread of the Geyser runloop could not be spawned.
    GeyserSpawn(String),
    /// The plugin manager commands ended.
    PluginCommands(String),
    /// The Geyser events ended.
    GeyserEvents(String),
    /// The configuration of a plugin could not be serialized.
    PluginConfig(String),
    /// A plugin reported an error when it was loaded.
    PluginLoad(String),
    /// A transaction for the plugins did not pass sanitization.
    TransactionRejected(String),
    /// A plugin reported an error when it was notified of a transaction.
    PluginNotification(String),
    /// The address of the RPC server is no socket address.
    RpcAddress(String),
    /// The RPC server could not be bound or started.
    RpcStart(String),
    /// The thread of the RPC server could not be spawned.
    RpcSpawn(String),
}

impl Failure {
    /// What is said ahead of the cause.
    pub open spec fn preamble(self) -> Seq<char> {
        match self {
            Failure::GeyserStart(_) => "Geyser plugin failed: "@,
            Failure::GeyserSpawn(_) => "Failed to spawn Geyser Plugins Handler thread: "@,
            Failure::PluginCommands(_) => "Failed to read plugin manager command: "@,
            Failure::GeyserEvents(_) =>
                "Failed to read new transaction to send to Geyser plugin: "@,
            Failure::PluginConfig(_) => "Failed to serialize subgraph plugin config: "@,
            Failure::PluginLoad(_) => "Failed to load Geyser plugin: "@,
            Failure::TransactionRejected(_) =>
                "Failed to notify Geyser plugin of new transaction: failed to serialize transaction: "@,
            Failure::PluginNotification(_) =>
                "Failed to notify Geyser plugin of new transaction: "@,
            Failure::RpcAddress(_) => ""@,
            Failure::RpcStart(_) => "Failed to start RPC server: "@,
            Failure::RpcSpawn(_) => "Failed to spawn RPC Handler thread: "@,
        }
    }

    /// The text of the error that caused the failure.
    pub open spec fn cause(self) -> Seq<char> {
        match self {
            Failure::GeyserStart(cause) => cause@,
            Failure::GeyserSpawn(cause) => cause@,
            Failure::PluginCommands(cause) => cause@,
            Failure::GeyserEvents(cause) => cause@,
            Failure::PluginConfig(cause) => cause@,
            Failure::PluginLoad(cause) => cause@,
            Failure::TransactionRejected(cause) => cause@,
            Failure::PluginNotification(cause) => cause@,
            Failure::RpcAddress(cause) => cause@,
            Failure::RpcStart(cause) => cause@,
            Failure::RpcSpawn(cause) => cause@,
        }
    }

    /// The text that the failure is reported with.
    pub fn message(&self) -> (text: String)
        ensures
            text@ == self.preamble() + self.cause(),
    {
        let (preamble, cause): (&str, &String) = match self {
            Failure::GeyserStart(cause) => ("Geyser plugin failed: ", cause),
            Failure::GeyserSpawn(cause) => (
                "Failed to spawn Geyser Plugins Handler thread: ",
                cause,
            ),
            Failure::PluginCommands(cause) => ("Failed to read plugin manager command: ", cause),
            Failure::GeyserEvents(cause) => (
                "Failed to read new transaction to send to Geyser plugin: ",
                cause,
            ),
            Failure::PluginConfig(cause) => (
                "Failed to serialize subgraph plugin config: ",
                cause,
            ),
            Failure::PluginLoad(cause) => ("Failed to load Geyser plugin: ", cause),
            Failure::TransactionRejected(cause) => (
                "Failed to notify Geyser plugin of new transaction: failed to serialize transaction: ",
                cause,
            ),
            Failure::PluginNotification(cause) => (
                "Failed to notify Geyser plugin of new transaction: ",
                cause,
            ),
            Failure::RpcAddress(cause) => ("", cause),
            Failure::RpcStart(cause) => ("Failed to start RPC server: ", cause),
            Failure::RpcSpawn(cause) => ("Failed to spawn RPC Handler thread: ", cause),
        };
        let mut text = preamble.to_owned();
        text.append(cause.as_str());
        text
    }
}

/// Every failure is reported in its own words, with the whole text of its cause
/// behind them; the failure to parse the address of the RPC server is reported in
/// the words of its cause.
pub proof fn law_words(cause: String)
    ensures
        ({
            let words = |failure: Failure| failure.preamble() + failure.cause();
            &&& words(Failure::GeyserStart(cause)) == "Geyser plugin failed: "@ + cause@
            &&& words(Failure::GeyserSpawn(cause))
                == "Failed to spawn Geyser Plugins Handler thread: "@ + cause@
            &&& words(Failure::PluginCommands(cause))
                == "Failed to read plugin manager command: "@ + cause@
            &&& words(Failure::GeyserEvents(cause))
                == "Failed to read new transaction to send to Geyser plugin: "@ + cause@
            &&& words(Failure::PluginConfig(cause))
                == "Failed to serialize subgraph plugin config: "@ + cause@
            &&& words(Failure::PluginLoad(cause)) == "Failed to load Geyser plugin: "@ + cause@
            &&& words(Failure::TransactionRejected(cause))
                == "Failed to notify Geyser plugin of new transaction: failed to serialize transaction: "@
                + cause@
            &&& words(Failure::PluginNotification(cause))
                == "Failed to notify Geyser plugin of new transaction: "@ + cause@
            &&& words(Failure::RpcAddress(cause)) == cause@
            &&& words(Failure::RpcStart(cause)) == "Failed to start RPC server: "@ + cause@
            &&& words(Failure::RpcSpawn(cause)) == "Failed to spawn RPC Handler thread: "@ + cause@
        }),
{
    reveal_strlit("");
    assert(""@ + cause@ =~= cause@);
}

} // verus!
