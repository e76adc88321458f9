//! The last known use count of the tracked invite.
use vstd::prelude::*;

verus! {

/// Why the attribution logic could not run.
#[derive(Debug, Clone, Copy, PartialEq, Eq, Structural)]
pub enum AttributionError {
    /// The counter was read before its first snapshot was taken.
    NotYetInitialized,
}

/// What a join notification tells about the tracked invite.
#[derive(Debug, Clone, Copy, PartialEq, Eq, Structural)]
pub enum AttributionDecision {
    /// The invite's use count went up since the last observation.
    Caused,
    /// The invite's use count did not go up.
    NotCaused,
    /// The tracked invite is not among the guild's invites.
    NotApplicable,
}

/// The counter after a `read_and_update` with `new_count` from `state`.
pub open spec fn next_count(state: Option<u64>, new_count: u64) -> Option<u64> {
    match state {
        Some(_) => Some(new_count),
        None => None,
    }
}

/// What a `read_and_update` returns from `state`.
pub open spec fn update_result(state: Option<u64>) -> Result<u64, AttributionError> {
    match state {
        Some(previous) => Ok(previous),
        None => Err(AttributionError::NotYetInitialized),
    }
}

/// The decision for a count of `fetched` uses after `previous` ones.
pub open spec fn decision_for(previous: u64, fetched: u64) -> AttributionDecision {
    if fetched > previous {
        AttributionDecision::Caused
    } else {
        AttributionDecision::NotCaused
    }
}

/// The counter after a whole run of `read_and_update` calls with `args`.
pub open spec fn count_after(start: Option<u64>, args: Seq<u64>) -> Option<u64>
    decreases args.len(),
{
    if args.len() == 0 {
        start
    } else {
        next_count(count_after(start, args.drop_last()), args.last())
    }
}

/// The use count of the tracked invite, `None` until it is first observed.
///
/// Every access is a read together with a write, so that two observers can
/// never both see the same stale value; callers that share it across tasks
/// keep it behind one lock.
#[derive(Debug)]
pub struct InviteUseTracker {
    count: Option<u64>,
}

impl View for InviteUseTracker {
    type V = Option<u64>;

    closed spec fn view(&self) -> Option<u64> {
        self.count
    }
}

impl InviteUseTracker {
    /// A tracker whose count is not known yet.
    pub fn new() -> (r: Self)
        ensures
            r@ == None::<u64>,
    {
        InviteUseTracker { count: None }
    }

    /// Sets the count once it is known (at startup, from a snapshot of the
    /// guilds' invites).
    pub fn initialize(&mut self, count: u64)
        ensures
            final(self)@ == Some(count),
    {
        self.count = Some(count);
    }

    /// Whether the count has been observed.
    pub fn is_initialized(&self) -> (r: bool)
        ensures
            r == self@.is_some(),
    {
        self.count.is_some()
    }

    /// Swaps in `new_count` and returns the count it replaces; before
    /// `initialize` it fails and changes nothing.
    pub fn read_and_update(&mut self, new_count: u64) -> (r: Result<u64, AttributionError>)
        ensures
            r == update_result(old(self)@),
            final(self)@ == next_count(old(self)@, new_count),
    {
        match self.count {
            Some(previous) => {
                self.count = Some(new_count);
                Ok(previous)
            },
            None => Err(AttributionError::NotYetInitialized),
        }
    }

    /// Records a fresh count of `fetched` uses and decides whether it shows
    /// a join through the tracked invite: it does when the count went up
    /// since the last observation.
    pub fn attribute(&mut self, fetched: u64) -> (r: Result<AttributionDecision, AttributionError>)
        ensures
            final(self)@ == next_count(old(self)@, fetched),
            match old(self)@ {
                Some(previous) => r == Ok::<AttributionDecision, AttributionError>(
                    decision_for(previous, fetched),
                ),
                None => r == Err::<AttributionDecision, AttributionError>(
                    AttributionError::NotYetInitialized,
                ),
            },
    {
        match self.read_and_update(fetched) {
            Ok(previous) => {
                if fetched > previous {
                    Ok(AttributionDecision::Caused)
                } else {
                    Ok(AttributionDecision::NotCaused)
                }
            },
            Err(e) => Err(e),
        }
    }
}

/// Each `read_and_update` after `initialize(init)` returns exactly the count
/// that the call before it stored (the first one returns `init`): no update
/// is ever lost.
pub proof fn lemma_no_lost_updates(init: u64, args: Seq<u64>, k: int)
    requires
        0 <= k < args.len(),
    ensures
        update_result(count_after(Some(init), args.take(k))) == Ok::<u64, AttributionError>(
            if k == 0 {
                init
            } else {
                args[k - 1]
            },
        ),
    decreases k,
{
    if k > 0 {
        lemma_initialized_stays(init, args.take(k - 1));
        assert(args.take(k).drop_last() =~= args.take(k - 1));
    }
}

/// Once initialized, the counter stays initialized through any run of calls.
pub proof fn lemma_initialized_stays(init: u64, args: Seq<u64>)
    ensures
        count_after(Some(init), args).is_some(),
    decreases args.len(),
{
    if args.len() > 0 {
        lemma_initialized_stays(init, args.drop_last());
    }
}

} // verus!
