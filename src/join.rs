//! The passive path: what a join notification decides.
use vstd::prelude::*;
use crate::guild::{OPhase, InviteUses, NamedId, WorkflowError, first_uses_of, first_id_named, find_invite_uses, get_role_id};
use crate::tracker::{InviteUseTracker, AttributionDecision, AttributionError, next_count, decision_for};

verus! {

/// Decides, from the guild's invites fetched after a member joined, whether
/// the join came through the tracked invite, and records the fetched count.
///
/// Where the guild has no invite with the tracked code the decision is
/// `NotApplicable` and the tracker is left as it was.
pub fn handle_new_guild_member(
    tracker: &mut InviteUseTracker,
    config: &OPhase,
    guild_invites: &Vec<InviteUses>,
) -> (r: Result<AttributionDecision, AttributionError>)
    ensures
        match first_uses_of(guild_invites@, config.invite_code@) {
            None => r == Ok::<AttributionDecision, AttributionError>(
                AttributionDecision::NotApplicable,
            ) && final(tracker)@ == old(tracker)@,
            Some(uses) => final(tracker)@ == next_count(old(tracker)@, uses) && match old(
                tracker,
            )@ {
                Some(previous) => r == Ok::<AttributionDecision, AttributionError>(
                    decision_for(previous, uses),
                ),
                None => r == Err::<AttributionDecision, AttributionError>(
                    AttributionError::NotYetInitialized,
                ),
            },
        },
{
    match find_invite_uses(guild_invites, &config.invite_code) {
        None => Ok(AttributionDecision::NotApplicable),
        Some(uses) => tracker.attribute(uses),
    }
}

/// The role to grant silently after a join with `decision`: the configured
/// role of the guild where the join was caused by the tracked invite, none
/// otherwise.
pub fn role_to_grant_on_join(
    decision: AttributionDecision,
    roles: &Vec<NamedId>,
    config: &OPhase,
) -> (r: Result<Option<u64>, WorkflowError>)
    ensures
        decision != AttributionDecision::Caused ==> r == Ok::<Option<u64>, WorkflowError>(None),
        decision == AttributionDecision::Caused ==> r == match first_id_named(
            roles@,
            config.role_name@,
        ) {
            Some(id) => Ok::<Option<u64>, WorkflowError>(Some(id)),
            None => Err(WorkflowError::RoleNotFound),
        },
{
    match decision {
        AttributionDecision::Caused => match get_role_id(roles, config) {
            Ok(id) => Ok(Some(id)),
            Err(e) => Err(e),
        },
        _ => Ok(None),
    }
}

} // verus!
