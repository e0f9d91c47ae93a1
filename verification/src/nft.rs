//! The store behind the asset contract: role membership, the whitelist of
//! identities eligible to receive transfers, the pause flag, and the
//! per-asset metadata records. Role membership checks are the single choke
//! point every mutating operation passes through.

use std::collections::HashMap;
use std::collections::HashSet;

use vstd::prelude::*;

use crate::contract::Error;
use crate::metadata::SeedMetadata;
use crate::roles::{spec_grant, spec_has_role, spec_revoke, Role, RoleFlags};

verus! {

broadcast use vstd::std_specs::hash::group_hash_axioms;

/// Role store, whitelist, pause flag and asset ledger.
pub struct SeedNFT {
    pub paused: bool,
    pub roles: HashMap<u64, RoleFlags>,
    pub whitelist: HashSet<u64>,
    pub metadata: HashMap<u128, SeedMetadata>,
}

impl SeedNFT {
    /// A fresh store: unpaused, no roles, no whitelist entries, no assets.
    pub fn new() -> (s: SeedNFT)
        ensures
            !s.paused,
            s.roles@ == Map::<u64, RoleFlags>::empty(),
            s.whitelist@ == Set::<u64>::empty(),
            s.metadata@ == Map::<u128, SeedMetadata>::empty(),
    {
        SeedNFT {
            paused: false,
            roles: HashMap::new(),
            whitelist: HashSet::new(),
            metadata: HashMap::new(),
        }
    }

    /// Rejects every mutating operation while the pause flag is set.
    pub fn require_not_paused(&self) -> (r: Result<(), Error>)
        ensures
            r is Ok <==> !self.paused,
            r matches Err(e) ==> e == Error::Paused,
    {
        if self.paused {
            Err(Error::Paused)
        } else {
            Ok(())
        }
    }

    /// Rejects a caller that does not hold `role`.
    pub fn require_role(&self, account: u64, role: Role) -> (r: Result<(), Error>)
        ensures
            r is Ok <==> spec_has_role(self.roles@, account, role),
            r matches Err(e) ==> e == Error::Unauthorized,
    {
        if self.has_role(account, role) {
            Ok(())
        } else {
            Err(Error::Unauthorized)
        }
    }

    /// Idempotent: sets membership of (account, role) true, touching nothing
    /// else.
    pub fn grant_role(&mut self, account: u64, role: Role)
        ensures
            final(self).roles@ == spec_grant(old(self).roles@, account, role),
            final(self).paused == old(self).paused,
            final(self).whitelist == old(self).whitelist,
            final(self).metadata == old(self).metadata,
    {
        let flags = match self.roles.get(&account) {
            Some(f) => *f,
            None => RoleFlags::empty(),
        };
        self.roles.insert(account, flags.with_role(role, true));
    }

    /// Idempotent: sets membership of (account, role) false, touching nothing
    /// else.
    pub fn revoke_role(&mut self, account: u64, role: Role)
        ensures
            final(self).roles@ == spec_revoke(old(self).roles@, account, role),
            final(self).paused == old(self).paused,
            final(self).whitelist == old(self).whitelist,
            final(self).metadata == old(self).metadata,
    {
        let flags = match self.roles.get(&account) {
            Some(f) => Some(*f),
            None => None,
        };
        match flags {
            Some(f) => {
                self.roles.insert(account, f.with_role(role, false));
            },
            None => {},
        }
    }

    /// Pure membership query; unknown pairs default to false.
    pub fn has_role(&self, account: u64, role: Role) -> (r: bool)
        ensures
            r == spec_has_role(self.roles@, account, role),
    {
        match self.roles.get(&account) {
            Some(f) => f.holds(role),
            None => false,
        }
    }

    /// Sets the pause flag; only an identity holding `Admin` may do so.
    pub fn pause(&mut self, account: u64) -> (r: Result<(), Error>)
        ensures
            r is Ok <==> spec_has_role(old(self).roles@, account, Role::Admin),
            r matches Err(e) ==> e == Error::Unauthorized && *final(self) == *old(self),
            r is Ok ==> *final(self) == (SeedNFT { paused: true, ..*old(self) }),
    {
        let check = self.require_role(account, Role::Admin);
        match check {
            Ok(_) => {
                self.paused = true;
                Ok(())
            },
            Err(e) => Err(e),
        }
    }

    /// Clears the pause flag; only an identity holding `Admin` may do so.
    pub fn unpause(&mut self, account: u64) -> (r: Result<(), Error>)
        ensures
            r is Ok <==> spec_has_role(old(self).roles@, account, Role::Admin),
            r matches Err(e) ==> e == Error::Unauthorized && *final(self) == *old(self),
            r is Ok ==> *final(self) == (SeedNFT { paused: false, ..*old(self) }),
    {
        let check = self.require_role(account, Role::Admin);
        match check {
            Ok(_) => {
                self.paused = false;
                Ok(())
            },
            Err(e) => Err(e),
        }
    }

    /// Creates or overwrites the record stored for `token_id`.
    pub fn store_metadata(&mut self, token_id: u128, metadata: SeedMetadata)
        ensures
            final(self).metadata@ == old(self).metadata@.insert(token_id, metadata),
            final(self).paused == old(self).paused,
            final(self).roles == old(self).roles,
            final(self).whitelist == old(self).whitelist,
    {
        self.metadata.insert(token_id, metadata);
    }

    /// The record stored for `token_id`, if any.
    pub fn get_metadata(&self, token_id: u128) -> (r: Option<&SeedMetadata>)
        ensures
            match r {
                Some(m) => self.metadata@.contains_key(token_id) && *m == self.metadata@[token_id],
                None => !self.metadata@.contains_key(token_id),
            },
    {
        self.metadata.get(&token_id)
    }

    /// Adds `account` to the whitelist; only an `Admin` caller may do so.
    /// Idempotent.
    pub fn add_to_whitelist(&mut self, caller: u64, account: u64) -> (r: Result<(), Error>)
        ensures
            r is Ok <==> spec_has_role(old(self).roles@, caller, Role::Admin),
            r matches Err(e) ==> e == Error::Unauthorized && *final(self) == *old(self),
            r is Ok ==> final(self).whitelist@ == old(self).whitelist@.insert(account)
                && final(self).paused == old(self).paused && final(self).roles == old(self).roles
                && final(self).metadata == old(self).metadata,
    {
        let check = self.require_role(caller, Role::Admin);
        match check {
            Ok(_) => {
                self.whitelist.insert(account);
                Ok(())
            },
            Err(e) => Err(e),
        }
    }

    /// Removes `account` from the whitelist; only an `Admin` caller may do
    /// so. Idempotent.
    pub fn remove_from_whitelist(&mut self, caller: u64, account: u64) -> (r: Result<(), Error>)
        ensures
            r is Ok <==> spec_has_role(old(self).roles@, caller, Role::Admin),
            r matches Err(e) ==> e == Error::Unauthorized && *final(self) == *old(self),
            r is Ok ==> final(self).whitelist@ == old(self).whitelist@.remove(account)
                && final(self).paused == old(self).paused && final(self).roles == old(self).roles
                && final(self).metadata == old(self).metadata,
    {
        let check = self.require_role(caller, Role::Admin);
        match check {
            Ok(_) => {
                self.whitelist.remove(&account);
                Ok(())
            },
            Err(e) => Err(e),
        }
    }

    /// Pure membership query on the whitelist.
    pub fn is_whitelisted(&self, account: u64) -> (r: bool)
        ensures
            r == self.whitelist@.contains(account),
    {
        self.whitelist.contains(&account)
    }
}

/// Law: adding an identity to the whitelist twice has the same effect as
/// adding it once.
pub proof fn lemma_whitelist_add_idempotent(whitelist: Set<u64>, account: u64)
    ensures
        whitelist.insert(account).insert(account) == whitelist.insert(account),
{
    assert(whitelist.insert(account).insert(account) =~= whitelist.insert(account));
}

} // verus!
