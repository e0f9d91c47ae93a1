//! The registry's backing store: its own role membership and pause flag, the
//! contract handle of the asset collection, and the keyed, insertion-ordered
//! seed records.

use std::collections::HashMap;

use vstd::prelude::*;

use crate::roles::{spec_grant, spec_has_role, spec_revoke, Role, RoleFlags};
use crate::seed_data::SeedData;
use crate::seed_registry::Error;

verus! {

broadcast use vstd::std_specs::hash::group_hash_axioms;

/// A record with this id occurs in `seeds`.
pub open spec fn spec_has_seed_in(seeds: Seq<SeedData>, id: Seq<char>) -> bool {
    exists|i: int| 0 <= i < seeds.len() && seeds[i].id@ == id
}

/// The position of the record with this id.
pub open spec fn spec_seed_ix_in(seeds: Seq<SeedData>, id: Seq<char>) -> int {
    choose|i: int| 0 <= i < seeds.len() && seeds[i].id@ == id
}

/// Role store, pause flag, collection handle and seed records of the
/// registry.
pub struct Registry {
    pub initialized: bool,
    pub paused: bool,
    pub roles: HashMap<u64, RoleFlags>,
    pub seed_count: u64,
    pub seeds: Vec<SeedData>,
    pub nft_contract: Option<u64>,
}

impl Registry {
    /// A record with this id has been registered.
    pub open spec fn spec_has_seed(self, id: Seq<char>) -> bool {
        spec_has_seed_in(self.seeds@, id)
    }

    /// The record registered under this id.
    pub open spec fn spec_seed(self, id: Seq<char>) -> SeedData {
        self.seeds@[spec_seed_ix_in(self.seeds@, id)]
    }

    /// Well-formedness: ids are unique, the running count equals the number
    /// of records, and an initialized registry knows its collection handle.
    pub open spec fn wf(self) -> bool {
        &&& (forall|i: int, j: int|
            0 <= i < self.seeds@.len() && 0 <= j < self.seeds@.len()
                && #[trigger] self.seeds@[i].id@ == #[trigger] self.seeds@[j].id@ ==> i == j)
        &&& self.seed_count == self.seeds@.len()
        &&& (self.initialized ==> self.nft_contract is Some)
    }

    /// A fresh, uninitialized registry with no records.
    pub fn new() -> (s: Registry)
        ensures
            s.wf(),
            !s.initialized,
            !s.paused,
            s.roles@ == Map::<u64, RoleFlags>::empty(),
            s.seed_count == 0,
            s.seeds@.len() == 0,
            s.nft_contract is None,
    {
        Registry {
            initialized: false,
            paused: false,
            roles: HashMap::new(),
            seed_count: 0,
            seeds: Vec::new(),
            nft_contract: None,
        }
    }

    /// One-time setup: records the collection handle, clears the pause flag
    /// and grants `Admin` to `admin`. Fails once initialized.
    pub fn initialize(&mut self, admin: u64, nft_contract: u64) -> (r: Result<(), Error>)
        requires
            old(self).wf(),
        ensures
            final(self).wf(),
            old(self).initialized ==> r == Err::<(), Error>(Error::AlreadyInitialized) && *final(self) == *old(self),
            !old(self).initialized ==> r is Ok && final(self).initialized && !final(self).paused
                && final(self).nft_contract == Some(nft_contract) && final(self).roles@
                == spec_grant(old(self).roles@, admin, Role::Admin) && final(self).seeds == old(self).seeds
                && final(self).seed_count == old(self).seed_count,
    {
        if self.initialized {
            return Err(Error::AlreadyInitialized);
        }
        self.initialized = true;
        self.nft_contract = Some(nft_contract);
        self.paused = false;
        let flags = match self.roles.get(&admin) {
            Some(f) => *f,
            None => RoleFlags::empty(),
        };
        self.roles.insert(admin, flags.with_role(Role::Admin, true));
        Ok(())
    }

    /// Rejects every mutating operation while the pause flag is set.
    pub fn require_not_paused(&self) -> (r: Result<(), Error>)
        ensures
            r is Ok <==> !self.paused,
            r matches Err(e) ==> e == Error::Paused,
    {
        if self.paused {
            Err(Error::Paused)
        } else {
            Ok(())
        }
    }

    /// Rejects a caller that does not hold `role`.
    pub fn require_role(&self, account: u64, role: Role) -> (r: Result<(), Error>)
        ensures
            r is Ok <==> spec_has_role(self.roles@, account, role),
            r matches Err(e) ==> e == Error::Unauthorized,
    {
        if self.has_role(account, role) {
            Ok(())
        } else {
            Err(Error::Unauthorized)
        }
    }

    /// Idempotent: sets membership of (account, role) true.
    pub fn grant_role(&mut self, account: u64, role: Role)
        ensures
            final(self).wf() == old(self).wf(),
            final(self).roles@ == spec_grant(old(self).roles@, account, role),
            final(self).paused == old(self).paused,
            final(self).initialized == old(self).initialized,
            final(self).seed_count == old(self).seed_count,
            final(self).seeds == old(self).seeds,
            final(self).nft_contract == old(self).nft_contract,
    {
        let flags = match self.roles.get(&account) {
            Some(f) => *f,
            None => RoleFlags::empty(),
        };
        self.roles.insert(account, flags.with_role(role, true));
    }

    /// Idempotent: sets membership of (account, role) false.
    pub fn revoke_role(&mut self, account: u64, role: Role)
        ensures
            final(self).wf() == old(self).wf(),
            final(self).roles@ == spec_revoke(old(self).roles@, account, role),
            final(self).paused == old(self).paused,
            final(self).initialized == old(self).initialized,
            final(self).seed_count == old(self).seed_count,
            final(self).seeds == old(self).seeds,
            final(self).nft_contract == old(self).nft_contract,
    {
        let flags = match self.roles.get(&account) {
            Some(f) => Some(*f),
            None => None,
        };
        match flags {
            Some(f) => {
                self.roles.insert(account, f.with_role(role, false));
            },
            None => {},
        }
    }

    /// Pure membership query; unknown pairs default to false.
    pub fn has_role(&self, account: u64, role: Role) -> (r: bool)
        ensures
            r == spec_has_role(self.roles@, account, role),
    {
        match self.roles.get(&account) {
            Some(f) => f.holds(role),
            None => false,
        }
    }

    /// Sets the pause flag; only an identity holding `Admin` may do so.
    pub fn pause(&mut self, account: u64) -> (r: Result<(), Error>)
        ensures
            r is Ok <==> spec_has_role(old(self).roles@, account, Role::Admin),
            r matches Err(e) ==> e == Error::Unauthorized && *final(self) == *old(self),
            r is Ok ==> *final(self) == (Registry { paused: true, ..*old(self) }),
    {
        let check = self.require_role(account, Role::Admin);
        match check {
            Ok(_) => {
                self.paused = true;
                Ok(())
            },
            Err(e) => Err(e),
        }
    }

    /// Clears the pause flag; only an identity holding `Admin` may do so.
    pub fn unpause(&mut self, account: u64) -> (r: Result<(), Error>)
        ensures
            r is Ok <==> spec_has_role(old(self).roles@, account, Role::Admin),
            r matches Err(e) ==> e == Error::Unauthorized && *final(self) == *old(self),
            r is Ok ==> *final(self) == (Registry { paused: false, ..*old(self) }),
    {
        let check = self.require_role(account, Role::Admin);
        match check {
            Ok(_) => {
                self.paused = false;
                Ok(())
            },
            Err(e) => Err(e),
        }
    }

    /// The number of records registered so far.
    pub fn get_seed_count(&self) -> (r: u64)
        ensures
            r == self.seed_count,
    {
        self.seed_count
    }

    /// The record registered under `seed_id`, if any.
    pub fn get_seed_data(&self, seed_id: &String) -> (r: Option<&SeedData>)
        requires
            self.wf(),
        ensures
            match r {
                Some(d) => self.spec_has_seed(seed_id@) && *d == self.spec_seed(seed_id@),
                None => !self.spec_has_seed(seed_id@),
            },
    {
        let mut i: usize = 0;
        while i < self.seeds.len()
            invariant
                self.wf(),
                i <= self.seeds@.len(),
                forall|j: int| 0 <= j < i ==> self.seeds@[j].id@ != seed_id@,
            decreases self.seeds@.len() - i,
        {
            if self.seeds[i].id == *seed_id {
                proof {
                    assert(self.seeds@[i as int].id@ == seed_id@);
                    let j = spec_seed_ix_in(self.seeds@, seed_id@);
                    assert(0 <= j < self.seeds@.len() && self.seeds@[j].id@ == seed_id@);
                    assert(self.seeds@[i as int].id@ == self.seeds@[j].id@);
                    assert(j == i as int);
                }
                return Some(&self.seeds[i]);
            }
            i = i + 1;
        }
        None
    }

    /// Appends a record whose id is not yet registered, keeping the count in
    /// step.
    pub fn add_seed(&mut self, data: SeedData)
        requires
            old(self).wf(),
            !old(self).spec_has_seed(data.id@),
            old(self).seed_count < u64::MAX,
        ensures
            final(self).wf(),
            final(self).seeds@ == old(self).seeds@.push(data),
            final(self).seed_count == old(self).seed_count + 1,
            final(self).roles == old(self).roles,
            final(self).paused == old(self).paused,
            final(self).initialized == old(self).initialized,
            final(self).nft_contract == old(self).nft_contract,
    {
        self.seeds.push(data);
        self.seed_count = self.seed_count + 1;
        proof {
            let n = old(self).seeds@.len() as int;
            assert forall|i: int, j: int|
                0 <= i < self.seeds@.len() && 0 <= j < self.seeds@.len()
                    && #[trigger] self.seeds@[i].id@ == #[trigger] self.seeds@[j].id@ implies i
                == j by {
                if i < n && j < n {
                    assert(old(self).seeds@[i].id@ == old(self).seeds@[j].id@);
                } else if i < n && j == n {
                    assert(old(self).seeds@[i].id@ == data.id@);
                } else if i == n && j < n {
                    assert(old(self).seeds@[j].id@ == data.id@);
                }
            }
        }
    }

    /// Every registered id, in registration order.
    pub fn get_seed_ids(&self) -> (r: Vec<String>)
        ensures
            r@.len() == self.seeds@.len(),
            forall|i: int| 0 <= i < r@.len() ==> r@[i] == self.seeds@[i].id,
    {
        let mut out: Vec<String> = Vec::new();
        let mut i: usize = 0;
        while i < self.seeds.len()
            invariant
                i <= self.seeds@.len(),
                out@.len() == i,
                forall|j: int| 0 <= j < i ==> out@[j] == self.seeds@[j].id,
            decreases self.seeds@.len() - i,
        {
            out.push(self.seeds[i].id.clone());
            i = i + 1;
        }
        out
    }

    /// The handle of the asset collection, recorded at initialization.
    pub fn get_nft_contract(&self) -> (r: Option<u64>)
        ensures
            r == self.nft_contract,
    {
        self.nft_contract
    }

    /// Re-points the registry at another collection handle; `Admin` only.
    pub fn set_nft_contract(&mut self, account: u64, nft_contract: u64) -> (r: Result<(), Error>)
        requires
            old(self).wf(),
        ensures
            final(self).wf(),
            r is Ok <==> spec_has_role(old(self).roles@, account, Role::Admin),
            r matches Err(e) ==> e == Error::Unauthorized && *final(self) == *old(self),
            r is Ok ==> *final(self) == (Registry { nft_contract: Some(nft_contract), ..*old(self) }),
    {
        let check = self.require_role(account, Role::Admin);
        match check {
            Ok(_) => {
                self.nft_contract = Some(nft_contract);
                Ok(())
            },
            Err(e) => Err(e),
        }
    }
}

} // verus!
