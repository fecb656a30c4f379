//! Plain-value model of the platform data the pipeline reads: channels,
//! authors and historical messages. The caller converts the platform's own
//! payloads into these types at the boundary, so the logic over them can be
//! verified.

use vstd::prelude::*;

verus! {

/// The channel shapes the command gate distinguishes. Anything that is neither a
/// public thread nor a forum is `Other`.
#[derive(Clone, Copy, PartialEq, Eq, Structural, Debug)]
pub enum ChannelKind {
    PublicThread,
    Forum,
    Other,
}

/// The guild-member override of an author's identity: the member-scoped
/// account name and display name, present only when the message payload
/// carried member data.
#[derive(Debug, PartialEq)]
pub struct MemberProfile {
    pub account_name: String,
    pub display_name: String,
}

/// An author as a message payload shows it: the global profile, an optional
/// guild-member override, and whether the account is a bot.
#[derive(Debug, PartialEq)]
pub struct AuthorIdentity {
    /// The author's account identifier.
    pub account_id: u64,
    /// The global account name.
    pub account_name: String,
    /// The global display name.
    pub display_name: String,
    /// The guild-member override, when the payload carried one.
    pub member: Option<MemberProfile>,
    /// The author's avatar, when one is set.
    pub avatar_url: Option<String>,
    /// Whether the account is a bot; bot messages are not migrated.
    pub is_bot: bool,
}

/// A rich-embed payload, carried through the pipeline unread.
#[derive(Debug, PartialEq)]
pub struct EmbedPayload {
    pub data: String,
}

impl Clone for EmbedPayload {
    fn clone(&self) -> (r: Self)
        ensures
            r == *self,
    {
        EmbedPayload { data: self.data.clone() }
    }
}

/// One message of the source thread, as retrieved: its author, text, and the
/// ordered attachment references and embeds to re-post with it.
#[derive(Debug, PartialEq)]
pub struct HistoricalMessage {
    /// The message identifier; pagination cursors are built from it.
    pub id: u64,
    pub author: AuthorIdentity,
    pub content: String,
    /// The URLs of the message's attachments, in their original order.
    pub attachment_urls: Vec<String>,
    /// The message's rich embeds, in their original order.
    pub embeds: Vec<EmbedPayload>,
}

/// The account name the replay posts under: the guild-member override when
/// present, else the global account name.
pub open spec fn resolved_account_name(a: AuthorIdentity) -> Seq<char> {
    match a.member {
        Some(m) => m.account_name@,
        None => a.account_name@,
    }
}

/// The display name the replay posts under: the guild-member override when
/// present, else the global display name.
pub open spec fn resolved_display_name(a: AuthorIdentity) -> Seq<char> {
    match a.member {
        Some(m) => m.display_name@,
        None => a.display_name@,
    }
}

/// Resolves an author to the (account name, display name) pair a replayed
/// message is posted under, preferring the guild-member override over the
/// global profile.
pub fn resolve_identity(a: &AuthorIdentity) -> (r: (String, String))
    ensures
        r.0@ == resolved_account_name(*a),
        r.1@ == resolved_display_name(*a),
{
    match &a.member {
        Some(m) => (m.account_name.clone(), m.display_name.clone()),
        None => (a.account_name.clone(), a.display_name.clone()),
    }
}

/// The member values win exactly when an override is present; the global
/// profile is the fallback and is never mixed with the override.
pub proof fn lemma_member_override_preferred(a: AuthorIdentity)
    ensures
        a.member is Some ==> resolved_account_name(a) == a.member->0.account_name@
            && resolved_display_name(a) == a.member->0.display_name@,
        a.member is None ==> resolved_account_name(a) == a.account_name@
            && resolved_display_name(a) == a.display_name@,
{
}

} // verus!
