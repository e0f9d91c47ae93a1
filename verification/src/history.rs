//! The append-only history log: every transition ever applied to any asset,
//! in application order. Entries are never mutated or removed.

use vstd::prelude::*;

use crate::lifecycle::LifecycleState;
use crate::metadata::clone_opt_string;

verus! {

/// One immutable record of a transition, created exactly once per successful
/// transition.
#[derive(Debug)]
pub struct StateTransition {
    pub from_state: LifecycleState,
    pub to_state: LifecycleState,
    pub timestamp: u64,
    pub updated_by: u64,
    pub notes: Option<String>,
}

impl Clone for StateTransition {
    fn clone(&self) -> (res: Self)
        ensures
            res == *self,
    {
        StateTransition {
            from_state: self.from_state,
            to_state: self.to_state,
            timestamp: self.timestamp,
            updated_by: self.updated_by,
            notes: clone_opt_string(&self.notes),
        }
    }
}

/// The transitions recorded for one asset handle, oldest first, drawn from a
/// growth-only log of (handle, transition) pairs.
pub open spec fn spec_log_of(log: Seq<(u128, StateTransition)>, token_id: u128) -> Seq<
    StateTransition,
>
    decreases log.len(),
{
    if log.len() == 0 {
        Seq::empty()
    } else {
        let rest = spec_log_of(log.drop_last(), token_id);
        if log.last().0 == token_id {
            rest.push(log.last().1)
        } else {
            rest
        }
    }
}

/// Appending an entry extends exactly that handle's history by one record and
/// leaves every other handle's history unchanged.
pub proof fn lemma_log_of_push(
    log: Seq<(u128, StateTransition)>,
    entry: (u128, StateTransition),
    token_id: u128,
)
    ensures
        entry.0 == token_id ==> spec_log_of(log.push(entry), token_id) == spec_log_of(
            log,
            token_id,
        ).push(entry.1),
        entry.0 != token_id ==> spec_log_of(log.push(entry), token_id) == spec_log_of(
            log,
            token_id,
        ),
{
    assert(log.push(entry).drop_last() =~= log);
    assert(log.push(entry).last() == entry);
}

/// The growth-only log of every transition applied to any asset.
#[derive(Debug)]
pub struct History {
    pub entries: Vec<(u128, StateTransition)>,
}

impl History {
    /// A log with no entries: no asset has any history yet.
    pub fn new() -> (h: History)
        ensures
            h.entries@.len() == 0,
    {
        History { entries: Vec::new() }
    }

    /// The ordered history of one asset, oldest first.
    pub open spec fn spec_all(self, token_id: u128) -> Seq<StateTransition> {
        spec_log_of(self.entries@, token_id)
    }

    /// Append one transition record for `token_id`.
    pub fn add_transition(&mut self, token_id: u128, transition: StateTransition)
        ensures
            final(self).entries@ == old(self).entries@.push((token_id, transition)),
            final(self).spec_all(token_id) == old(self).spec_all(token_id).push(transition),
            forall|other: u128|
                other != token_id ==> final(self).spec_all(other) == old(self).spec_all(other),
    {
        let ghost entry = (token_id, transition);
        self.entries.push((token_id, transition));
        proof {
            assert forall|other: u128| other != token_id implies spec_log_of(
                old(self).entries@.push(entry),
                other,
            ) == spec_log_of(old(self).entries@, other) by {
                lemma_log_of_push(old(self).entries@, entry, other);
            }
            lemma_log_of_push(old(self).entries@, entry, token_id);
        }
    }

    /// The ordered history for `token_id`, oldest first; empty for an asset
    /// with no transitions yet.
    pub fn get_history(&self, token_id: u128) -> (r: Vec<StateTransition>)
        ensures
            r@ == self.spec_all(token_id),
    {
        let mut out: Vec<StateTransition> = Vec::new();
        proof {
            assert(out@ =~= spec_log_of(self.entries@.take(0), token_id));
        }
        let mut i: usize = 0;
        while i < self.entries.len()
            invariant
                i <= self.entries@.len(),
                out@ == spec_log_of(self.entries@.take(i as int), token_id),
            decreases self.entries@.len() - i,
        {
            let entry = &self.entries[i];
            if entry.0 == token_id {
                out.push(entry.1.clone());
            }
            i = i + 1;
            proof {
                assert(self.entries@.take(i as int).drop_last() =~= self.entries@.take(
                    i as int - 1,
                ));
                assert(self.entries@.take(i as int).last() == self.entries@[i as int - 1]);
            }
        }
        proof {
            assert(self.entries@.take(self.entries@.len() as int) =~= self.entries@);
        }
        out
    }
}

} // verus!
