//! The error taxonomy of the migration pipeline, and the human-readable
//! status line each error turns into at the command boundary.

use vstd::prelude::*;
use vstd::string::StringExecFns;

verus! {

/// The two ways an invocation context can be ineligible: the command was not
/// sent from a public thread under a forum, or the chosen target channel is
/// not a forum.
#[derive(Debug, PartialEq)]
pub enum ContextFault {
    NotForumThread,
    TargetNotForum,
}

/// Everything that can stop a migration. Each variant is converted into a
/// plain status string at the command boundary; none escapes as a process
/// failure.
#[derive(Debug, PartialEq)]
pub enum MigrationError {
    /// The invocation context carried no channel information.
    NoChannel,
    /// The source thread held no eligible messages.
    NoMessages,
    /// Fetching the history failed; the payload is the platform's reason.
    RetrievalFailed(String),
    /// Posting the seed message failed or returned no result.
    SendFailed(String),
    /// The impersonation endpoint could not be provisioned.
    WebhookCreationFailed(String),
    /// The invoking user does not hold the required role.
    NotAllowed,
    /// Another migration is already in progress.
    AlreadyProcessing,
    /// The invocation context or the target channel is ineligible.
    UnsupportedContext(ContextFault),
    /// The command name is not one this system serves; answered by silence.
    UnhandledCommand,
}

/// The status line for each error, as the invoking user sees it.
pub open spec fn message_spec(e: MigrationError) -> Seq<char> {
    match e {
        MigrationError::NoChannel => "No channel found"@,
        MigrationError::NoMessages => "No messages found"@,
        MigrationError::RetrievalFailed(why) => "Unable to retrieve the messages: "@ + why@,
        MigrationError::SendFailed(why) => "Unable to send the message: "@ + why@,
        MigrationError::WebhookCreationFailed(why) => "Unable to create the webhook: "@ + why@,
        MigrationError::NotAllowed => "Not allowed"@,
        MigrationError::AlreadyProcessing => "Already processing"@,
        MigrationError::UnsupportedContext(ContextFault::NotForumThread) => "Invoke the command from a forum thread"@,
        MigrationError::UnsupportedContext(ContextFault::TargetNotForum) => "Target channel is not a forum"@,
        MigrationError::UnhandledCommand => "Not implemented :("@,
    }
}

impl MigrationError {
    /// Renders the error as its status line.
    pub fn message(&self) -> (r: String)
        ensures
            r@ == message_spec(*self),
    {
        match self {
            MigrationError::NoChannel => String::from_str("No channel found"),
            MigrationError::NoMessages => String::from_str("No messages found"),
            MigrationError::RetrievalFailed(why) => String::from_str(
                "Unable to retrieve the messages: ",
            ).concat(why.as_str()),
            MigrationError::SendFailed(why) => String::from_str(
                "Unable to send the message: ",
            ).concat(why.as_str()),
            MigrationError::WebhookCreationFailed(why) => String::from_str(
                "Unable to create the webhook: ",
            ).concat(why.as_str()),
            MigrationError::NotAllowed => String::from_str("Not allowed"),
            MigrationError::AlreadyProcessing => String::from_str("Already processing"),
            MigrationError::UnsupportedContext(ContextFault::NotForumThread) => String::from_str(
                "Invoke the command from a forum thread",
            ),
            MigrationError::UnsupportedContext(ContextFault::TargetNotForum) => String::from_str(
                "Target channel is not a forum",
            ),
            MigrationError::UnhandledCommand => String::from_str("Not implemented :("),
        }
    }
}

} // verus!
