//! Edge-detector for the blacklist flag of one watched address.
//!
//! Each tick a read-only predicate is queried outside the library; the
//! observed value, or the query failure, is handed in here. The monitor
//! retains the last successfully observed value and emits exactly one
//! notification event on each `flagged -> clear` transition. A failed query
//! never moves the state: no transition is ever inferred from a failure.

use vstd::prelude::*;

use crate::address::Address;
use crate::errors::QueryError;

verus! {

/// Whether moving from `prior` to `current` fires the one-shot
/// notification. Only the `flagged -> clear` edge does; entering the
/// flagged state and both self-loops stay silent.
pub open spec fn transition_fires(prior: bool, current: bool) -> bool {
    prior && !current
}

/// The status retained after one poll: the fresh observation when the
/// query answered, the prior value unchanged when it failed.
pub open spec fn next_status(prior: bool, observation: Result<bool, QueryError>) -> bool {
    match observation {
        Ok(current) => current,
        Err(_) => prior,
    }
}

/// The notification of one `flagged -> clear` transition. It names the
/// watched address; the delivery text is rendered outside the library.
#[derive(Debug)]
pub struct NotifyEvent {
    pub address: Address,
}

/// Evaluates one poll of the predicate against the prior status. On a
/// successful observation it returns the fresh status, to retain for the
/// next call, and an event exactly when the `flagged -> clear` edge was
/// crossed. A failed query is handed back unchanged, so that the caller
/// keeps its prior status.
pub fn poll_once(watched: &Address, prior_status: bool, observation: Result<bool, QueryError>) -> (r:
    Result<(bool, Option<NotifyEvent>), QueryError>)
    ensures
        observation matches Err(e) ==> r == Err::<(bool, Option<NotifyEvent>), QueryError>(e),
        observation matches Ok(current) ==> {
            &&& r matches Ok((new_status, event))
            &&& new_status == current
            &&& transition_fires(prior_status, current) ==> (event matches Some(ev) && ev.address@
                == watched@)
            &&& !transition_fires(prior_status, current) ==> event is None
        },
{
    match observation {
        Ok(current) => {
            if prior_status && !current {
                Ok((current, Some(NotifyEvent { address: watched.duplicate() })))
            } else {
                Ok((current, None))
            }
        },
        Err(e) => Err(e),
    }
}

/// The monitor's whole retained state: the last successfully observed
/// value of the predicate, owned by the monitor loop alone.
pub struct BlacklistMonitor {
    pub last_status: bool,
}

impl BlacklistMonitor {
    /// The state after the bootstrap read: the first successful query
    /// before the loop starts. The bootstrap read yields no event,
    /// whatever its value — there is no prior observation to compare
    /// against — so a process restarted during a flagged period stays
    /// silent when its very first read already sees the flag cleared.
    pub fn initialize(first_status: bool) -> (m: BlacklistMonitor)
        ensures
            m.last_status == first_status,
    {
        BlacklistMonitor { last_status: first_status }
    }

    /// Folds one poll into the state. On success the retained status
    /// becomes the fresh observation and an event comes back exactly on
    /// the `flagged -> clear` edge; on a query failure the state is
    /// unchanged and the failure is handed back for logging.
    pub fn observe(&mut self, watched: &Address, observation: Result<bool, QueryError>) -> (r:
        Result<Option<NotifyEvent>, QueryError>)
        ensures
            final(self).last_status == next_status(old(self).last_status, observation),
            observation matches Err(e) ==> (r == Err::<Option<NotifyEvent>, QueryError>(e)
                && final(self).last_status == old(self).last_status),
            observation matches Ok(current) ==> {
                &&& r matches Ok(event)
                &&& transition_fires(old(self).last_status, current) ==> (event matches Some(ev)
                    && ev.address@ == watched@)
                &&& !transition_fires(old(self).last_status, current) ==> event is None
            },
    {
        match poll_once(watched, self.last_status, observation) {
            Ok((new_status, event)) => {
                self.last_status = new_status;
                Ok(event)
            },
            Err(e) => Err(e),
        }
    }
}

/// Law: the transition table of the monitor. Of the four movements of the
/// flag only `flagged -> clear` fires a notification; both self-loops and
/// entering the flagged state are silent.
pub proof fn lemma_transition_table()
    ensures
        !transition_fires(true, true),
        !transition_fires(false, false),
        !transition_fires(false, true),
        transition_fires(true, false),
{
}

/// Law: what the retained status becomes. A successful observation always
/// replaces it; a failed query always leaves it where it was.
pub proof fn lemma_status_retention(prior: bool, observation: Result<bool, QueryError>)
    ensures
        observation matches Ok(current) ==> next_status(prior, observation) == current,
        observation is Err ==> next_status(prior, observation) == prior,
{
}

} // verus!
