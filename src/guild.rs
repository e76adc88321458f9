//! What the logic reads of a guild, as plain values: its roles, channels and
//! invites, and the feature's configuration.
use vstd::prelude::*;

verus! {

/// The feature's configuration, loaded once at startup.
#[derive(Debug, Clone)]
pub struct OPhase {
    /// The code of the tracked invite.
    pub invite_code: String,
    /// The name of the role to grant.
    pub role_name: String,
    /// The name of the channel that new members are sent to.
    pub channel_name: String,
    /// The shared group password.
    pub password: String,
}

/// A role or a channel: its id and its display name.
#[derive(Debug, Clone)]
pub struct NamedId {
    pub id: u64,
    pub name: String,
}

/// One of a guild's invites: its code and how often it was used.
#[derive(Debug, Clone)]
pub struct InviteUses {
    pub code: String,
    pub uses: u64,
}

/// Why a step of the role grant could not go on.
#[derive(Debug, Clone, Copy, PartialEq, Eq, Structural)]
pub enum WorkflowError {
    /// The command ran outside a guild (in a private message).
    NotInGuildContext,
    /// The feature has no configuration.
    FeatureNotConfigured,
    /// No role of the guild has the configured name.
    RoleNotFound,
    /// No channel of the guild has the configured name.
    ChannelNotFound,
}

/// The id of the first entry named exactly `name`.
pub open spec fn first_id_named(entries: Seq<NamedId>, name: Seq<char>) -> Option<u64>
    decreases entries.len(),
{
    if entries.len() == 0 {
        None
    } else if entries[0].name@ == name {
        Some(entries[0].id)
    } else {
        first_id_named(entries.drop_first(), name)
    }
}

/// The uses of the first invite whose code is exactly `code`.
pub open spec fn first_uses_of(invites: Seq<InviteUses>, code: Seq<char>) -> Option<u64>
    decreases invites.len(),
{
    if invites.len() == 0 {
        None
    } else if invites[0].code@ == code {
        Some(invites[0].uses)
    } else {
        first_uses_of(invites.drop_first(), code)
    }
}

/// The id of the first entry named exactly `name`.
pub fn find_id_by_name(entries: &Vec<NamedId>, name: &String) -> (r: Option<u64>)
    ensures
        r == first_id_named(entries@, name@),
{
    let mut i: usize = 0;
    assert(entries@.subrange(0, entries@.len() as int) =~= entries@);
    while i < entries.len()
        invariant
            i <= entries@.len(),
            first_id_named(entries@, name@) == first_id_named(entries@.subrange(i as int, entries@.len() as int), name@),
        decreases entries.len() - i,
    {
        assert(entries@.subrange(i as int, entries@.len() as int).drop_first() =~= entries@.subrange(i as int + 1, entries@.len() as int));
        if entries[i].name == *name {
            return Some(entries[i].id);
        }
        i = i + 1;
    }
    None
}

/// The uses of the first invite whose code is exactly `code`, `None` where
/// the guild has no such invite (it may have been deleted).
pub fn find_invite_uses(invites: &Vec<InviteUses>, code: &String) -> (r: Option<u64>)
    ensures
        r == first_uses_of(invites@, code@),
{
    let mut i: usize = 0;
    assert(invites@.subrange(0, invites@.len() as int) =~= invites@);
    while i < invites.len()
        invariant
            i <= invites@.len(),
            first_uses_of(invites@, code@) == first_uses_of(invites@.subrange(i as int, invites@.len() as int), code@),
        decreases invites.len() - i,
    {
        assert(invites@.subrange(i as int, invites@.len() as int).drop_first() =~= invites@.subrange(i as int + 1, invites@.len() as int));
        if invites[i].code == *code {
            return Some(invites[i].uses);
        }
        i = i + 1;
    }
    None
}

/// The id of the configured role among the guild's `roles`.
pub fn get_role_id(roles: &Vec<NamedId>, config: &OPhase) -> (r: Result<u64, WorkflowError>)
    ensures
        r == match first_id_named(roles@, config.role_name@) {
            Some(id) => Ok::<u64, WorkflowError>(id),
            None => Err(WorkflowError::RoleNotFound),
        },
{
    match find_id_by_name(roles, &config.role_name) {
        Some(id) => Ok(id),
        None => Err(WorkflowError::RoleNotFound),
    }
}

/// The id of the configured channel among the guild's `channels`.
pub fn get_channel_id(channels: &Vec<NamedId>, config: &OPhase) -> (r: Result<u64, WorkflowError>)
    ensures
        r == match first_id_named(channels@, config.channel_name@) {
            Some(id) => Ok::<u64, WorkflowError>(id),
            None => Err(WorkflowError::ChannelNotFound),
        },
{
    match find_id_by_name(channels, &config.channel_name) {
        Some(id) => Ok(id),
        None => Err(WorkflowError::ChannelNotFound),
    }
}

} // verus!
