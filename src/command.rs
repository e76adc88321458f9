//! The command path (`/ophase`): the decisions between the platform calls,
//! as a step from the current phase and an event to the next phase and the
//! action to perform.
use vstd::prelude::*;
use crate::guild::{OPhase, NamedId, WorkflowError, first_id_named, get_role_id, get_channel_id};
use crate::password::{lower_of, password_length_ok, verify_password, PASSWORD_MIN_CHARS, PASSWORD_MAX_CHARS};

verus! {

/// Where a run of the command stands.
#[derive(Debug, Clone, Copy, PartialEq, Eq, Structural)]
pub enum CommandPhase {
    /// Nothing has happened yet.
    Start,
    /// The role is resolved; the guild's channels are being listed.
    AwaitChannels { role_id: u64 },
    /// Role and channel are resolved; the password form is open.
    AwaitPassword { role_id: u64, channel_id: u64 },
    /// The password matched; the role is being granted.
    AwaitGrant { channel_id: u64 },
    /// The run is over.
    Finished,
}

/// What the platform reports back to a run of the command.
#[derive(Debug, Clone)]
pub enum CommandEvent {
    /// The command was invoked: with the guild's roles, or `None` outside a
    /// guild.
    Invoked { guild_roles: Option<Vec<NamedId>> },
    /// The guild's channels were listed.
    ChannelsListed { channels: Vec<NamedId> },
    /// The user closed the password form without submitting it.
    PasswordCancelled,
    /// The user submitted the password form.
    PasswordSubmitted { password: String },
    /// The role was granted.
    RoleGranted,
}

/// What the caller performs next.
#[derive(Debug, Clone, Copy, PartialEq, Eq, Structural)]
pub enum CommandAction {
    /// List the guild's channels.
    ListChannels,
    /// Show the password form (again).
    ShowPasswordPrompt,
    /// Grant the role to the invoking member.
    GrantRole { role_id: u64 },
    /// Tell the user, privately, that the password was wrong.
    ReplyWrongPassword,
    /// Tell the user, privately, that they are in, pointing at the channel.
    ReplyWelcome { channel_id: u64 },
    /// End without a reply.
    EndSilently,
    /// End with an error.
    Fail { error: WorkflowError },
}

/// The next phase and action from `phase` on `event`. An event that does not
/// belong to the phase ends the run silently.
pub open spec fn command_step(
    config: Option<OPhase>,
    phase: CommandPhase,
    event: CommandEvent,
) -> (CommandPhase, CommandAction) {
    match (phase, event) {
        (CommandPhase::Start, CommandEvent::Invoked { guild_roles }) => match guild_roles {
            None => (
                CommandPhase::Finished,
                CommandAction::Fail { error: WorkflowError::NotInGuildContext },
            ),
            Some(roles) => match config {
                None => (
                    CommandPhase::Finished,
                    CommandAction::Fail { error: WorkflowError::FeatureNotConfigured },
                ),
                Some(c) => match first_id_named(roles@, c.role_name@) {
                    None => (
                        CommandPhase::Finished,
                        CommandAction::Fail { error: WorkflowError::RoleNotFound },
                    ),
                    Some(role_id) => (
                        CommandPhase::AwaitChannels { role_id },
                        CommandAction::ListChannels,
                    ),
                },
            },
        },
        (CommandPhase::AwaitChannels { role_id }, CommandEvent::ChannelsListed { channels }) => {
            match config {
                None => (
                    CommandPhase::Finished,
                    CommandAction::Fail { error: WorkflowError::FeatureNotConfigured },
                ),
                Some(c) => match first_id_named(channels@, c.channel_name@) {
                    None => (
                        CommandPhase::Finished,
                        CommandAction::Fail { error: WorkflowError::ChannelNotFound },
                    ),
                    Some(channel_id) => (
                        CommandPhase::AwaitPassword { role_id, channel_id },
                        CommandAction::ShowPasswordPrompt,
                    ),
                },
            }
        },
        (CommandPhase::AwaitPassword { .. }, CommandEvent::PasswordCancelled) => (
            CommandPhase::Finished,
            CommandAction::EndSilently,
        ),
        (
            CommandPhase::AwaitPassword { role_id, channel_id },
            CommandEvent::PasswordSubmitted { password },
        ) => match config {
            None => (
                CommandPhase::Finished,
                CommandAction::Fail { error: WorkflowError::FeatureNotConfigured },
            ),
            Some(c) => if !(PASSWORD_MIN_CHARS <= password@.len() <= PASSWORD_MAX_CHARS) {
                (phase, CommandAction::ShowPasswordPrompt)
            } else if lower_of(password@) == lower_of(c.password@) {
                (CommandPhase::AwaitGrant { channel_id }, CommandAction::GrantRole { role_id })
            } else {
                (CommandPhase::Finished, CommandAction::ReplyWrongPassword)
            },
        },
        (CommandPhase::AwaitGrant { channel_id }, CommandEvent::RoleGranted) => (
            CommandPhase::Finished,
            CommandAction::ReplyWelcome { channel_id },
        ),
        _ => (CommandPhase::Finished, CommandAction::EndSilently),
    }
}

/// One step of the command: the next phase and the action to perform.
///
/// Outside a guild the very first step fails with `NotInGuildContext`, before
/// any platform call; a submitted password of the wrong length is sent back
/// to the form and never compared.
pub fn ersti_step(config: &Option<OPhase>, phase: CommandPhase, event: CommandEvent) -> (r: (
    CommandPhase,
    CommandAction,
))
    ensures
        r == command_step(*config, phase, event),
        phase == CommandPhase::Start && (event matches CommandEvent::Invoked {
            guild_roles: None,
        }) ==> r == (
            CommandPhase::Finished,
            CommandAction::Fail { error: WorkflowError::NotInGuildContext },
        ),
        match event {
            CommandEvent::PasswordSubmitted { password } => (phase matches CommandPhase::AwaitPassword { .. })
                && config.is_some() && !(PASSWORD_MIN_CHARS <= password@.len()
                <= PASSWORD_MAX_CHARS) ==> r == (phase, CommandAction::ShowPasswordPrompt),
            _ => true,
        },
{
    match (phase, event) {
        (CommandPhase::Start, CommandEvent::Invoked { guild_roles }) => match guild_roles {
            None => (
                CommandPhase::Finished,
                CommandAction::Fail { error: WorkflowError::NotInGuildContext },
            ),
            Some(roles) => match config {
                None => (
                    CommandPhase::Finished,
                    CommandAction::Fail { error: WorkflowError::FeatureNotConfigured },
                ),
                Some(c) => match get_role_id(&roles, c) {
                    Err(error) => (CommandPhase::Finished, CommandAction::Fail { error }),
                    Ok(role_id) => (
                        CommandPhase::AwaitChannels { role_id },
                        CommandAction::ListChannels,
                    ),
                },
            },
        },
        (CommandPhase::AwaitChannels { role_id }, CommandEvent::ChannelsListed { channels }) => {
            match config {
                None => (
                    CommandPhase::Finished,
                    CommandAction::Fail { error: WorkflowError::FeatureNotConfigured },
                ),
                Some(c) => match get_channel_id(&channels, c) {
                    Err(error) => (CommandPhase::Finished, CommandAction::Fail { error }),
                    Ok(channel_id) => (
                        CommandPhase::AwaitPassword { role_id, channel_id },
                        CommandAction::ShowPasswordPrompt,
                    ),
                },
            }
        },
        (CommandPhase::AwaitPassword { .. }, CommandEvent::PasswordCancelled) => (
            CommandPhase::Finished,
            CommandAction::EndSilently,
        ),
        (
            CommandPhase::AwaitPassword { role_id, channel_id },
            CommandEvent::PasswordSubmitted { password },
        ) => match config {
            None => (
                CommandPhase::Finished,
                CommandAction::Fail { error: WorkflowError::FeatureNotConfigured },
            ),
            Some(c) => if !password_length_ok(&password) {
                (phase, CommandAction::ShowPasswordPrompt)
            } else if verify_password(&password, &c.password) {
                (CommandPhase::AwaitGrant { channel_id }, CommandAction::GrantRole { role_id })
            } else {
                (CommandPhase::Finished, CommandAction::ReplyWrongPassword)
            },
        },
        (CommandPhase::AwaitGrant { channel_id }, CommandEvent::RoleGranted) => (
            CommandPhase::Finished,
            CommandAction::ReplyWelcome { channel_id },
        ),
        _ => (CommandPhase::Finished, CommandAction::EndSilently),
    }
}

} // verus!
