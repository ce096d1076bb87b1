//! Command-line surface of the tool, as plain data.
//!
//! Argument parsing itself is external; the binary hands the parsed values
//! over in these types.

use vstd::prelude::*;

verus! {

/// A parsed invocation: an optional message, the configuration file path,
/// and an optional subcommand.
pub struct Cli {
    /// The message to send when using as `cmd && noti 'Message'`.
    pub message: Option<String>,
    /// The path to the config to use.
    pub config: String,
    /// Optional subcommands.
    pub command: Option<Command>,
}

/// Subcommands of the tool.
pub enum Command {
    /// Initialise a new configuration file.
    Init {
        /// Where to send notifications to.
        destination: DestinationType,
        /// Initialise a custom webhook destination. Has no effect on desktop
        /// destinations.
        custom: bool,
    },
    /// Commands about supported notification destinations.
    Destination {
        command: DestinationCommand,
    },
}

/// The kind of destination a configuration is generated for.
#[derive(Debug, Clone, Copy, PartialEq, Eq, Structural)]
pub enum DestinationType {
    /// Desktop notifications.
    Desktop,
    /// Webhook notifications.
    Webhook,
}

/// Commands about notification destinations.
pub enum DestinationCommand {
    /// List all available destinations.
    List,
    /// Add a default configuration for a destination to existing config.
    Add {
        /// Where to send notifications to.
        destination: DestinationType,
        /// Add a custom webhook destination. Has no effect on desktop
        /// destinations.
        custom: bool,
    },
}

} // verus!
