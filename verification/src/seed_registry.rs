//! The registry's public operation surface: bulk and single seed
//! registration, keyed and filtered queries, and role / pause
//! administration. Registration assigns each new record the next handle from
//! a running counter.

use vstd::prelude::*;

use crate::registry::{spec_has_seed_in, Registry};
use crate::roles::{spec_grant, spec_has_role, spec_revoke, Role};
use crate::seed_data::SeedData;

verus! {

/// The failure conditions a registry operation can surface.
#[derive(Clone, Copy, Debug, PartialEq, Eq, Structural)]
pub enum Error {
    NotInitialized,
    AlreadyInitialized,
    Unauthorized,
    Paused,
    SeedNotFound,
    InvalidInput,
    AlreadyExists,
}

/// Notification of a successful single registration.
#[derive(Debug)]
pub struct SeedRegisteredEvent {
    pub seed_id: String,
    pub nft_id: u128,
    pub creator: u64,
    pub created_at: u64,
}

/// Notification of one registration inside a batch.
#[derive(Debug)]
pub struct SeedRegisteredBatchEvent {
    pub seed_id: String,
    pub nft_id: u128,
}

/// Notification of a role grant.
#[derive(Clone, Copy, Debug, PartialEq, Eq, Structural)]
pub struct RoleGrantEvent {
    pub account: u64,
    pub role: Role,
}

/// Notification of a role revocation.
#[derive(Clone, Copy, Debug, PartialEq, Eq, Structural)]
pub struct RoleRevokeEvent {
    pub account: u64,
    pub role: Role,
}

/// Notification that the registry was paused.
#[derive(Clone, Copy, Debug, PartialEq, Eq, Structural)]
pub struct PausedEvent {
    pub account: u64,
}

/// Notification that the registry was unpaused.
#[derive(Clone, Copy, Debug, PartialEq, Eq, Structural)]
pub struct UnpausedEvent {
    pub account: u64,
}

/// The registered ids whose record has this variety, in registration order.
pub open spec fn spec_ids_by_variety(seeds: Seq<SeedData>, variety: Seq<char>) -> Seq<String>
    decreases seeds.len(),
{
    if seeds.len() == 0 {
        Seq::empty()
    } else {
        let rest = spec_ids_by_variety(seeds.drop_last(), variety);
        if seeds.last().variety@ == variety {
            rest.push(seeds.last().id)
        } else {
            rest
        }
    }
}

/// The registered ids whose record has this batch label, in registration
/// order.
pub open spec fn spec_ids_by_batch(seeds: Seq<SeedData>, batch: Seq<char>) -> Seq<String>
    decreases seeds.len(),
{
    if seeds.len() == 0 {
        Seq::empty()
    } else {
        let rest = spec_ids_by_batch(seeds.drop_last(), batch);
        if seeds.last().batch@ == batch {
            rest.push(seeds.last().id)
        } else {
            rest
        }
    }
}

/// The registered ids whose record was created by this identity, in
/// registration order.
pub open spec fn spec_ids_by_creator(seeds: Seq<SeedData>, creator: u64) -> Seq<String>
    decreases seeds.len(),
{
    if seeds.len() == 0 {
        Seq::empty()
    } else {
        let rest = spec_ids_by_creator(seeds.drop_last(), creator);
        if seeds.last().creator == creator {
            rest.push(seeds.last().id)
        } else {
            rest
        }
    }
}

/// The record a registration writes: all fields verbatim, stamped with the
/// creation time and the next handle.
pub open spec fn spec_new_seed(
    id: String,
    creator: u64,
    variety: String,
    batch: String,
    origin_country: String,
    seed_bank: String,
    expected_thc: Option<u32>,
    expected_cbd: Option<u32>,
    organic_certified: bool,
    nft_id: u128,
    nft_contract: u64,
    now: u64,
) -> SeedData {
    SeedData {
        id,
        created_at: now,
        creator,
        variety,
        batch,
        origin_country,
        seed_bank,
        expected_thc,
        expected_cbd,
        organic_certified,
        nft_id,
        nft_contract,
    }
}

/// The first `n` steps of a batch registration, as a fold: each step skips an
/// id already present (including one added earlier in the same batch) and
/// otherwise appends its record under the next handle. Returns the records,
/// the running count, and the handles assigned.
pub open spec fn spec_batch(
    seeds0: Seq<SeedData>,
    count0: u64,
    creator: u64,
    nft_contract: u64,
    now: u64,
    ids: Seq<String>,
    varieties: Seq<String>,
    batches: Seq<String>,
    origins: Seq<String>,
    banks: Seq<String>,
    thcs: Seq<Option<u32>>,
    cbds: Seq<Option<u32>>,
    organics: Seq<bool>,
    n: int,
) -> (Seq<SeedData>, u64, Seq<u128>)
    decreases n,
{
    if n <= 0 {
        (seeds0, count0, Seq::empty())
    } else {
        let prev = spec_batch(
            seeds0,
            count0,
            creator,
            nft_contract,
            now,
            ids,
            varieties,
            batches,
            origins,
            banks,
            thcs,
            cbds,
            organics,
            n - 1,
        );
        if spec_has_seed_in(prev.0, ids[n - 1]@) {
            prev
        } else {
            (
                prev.0.push(
                    spec_new_seed(
                        ids[n - 1],
                        creator,
                        varieties[n - 1],
                        batches[n - 1],
                        origins[n - 1],
                        banks[n - 1],
                        thcs[n - 1],
                        cbds[n - 1],
                        organics[n - 1],
                        (prev.1 + 1) as u128,
                        nft_contract,
                        now,
                    ),
                ),
                (prev.1 + 1) as u64,
                prev.2.push((prev.1 + 1) as u128),
            )
        }
    }
}

/// The registry contract: its store plus the operation surface.
pub struct SeedRegistry {
    pub registry: Registry,
}

impl SeedRegistry {
    /// A fresh, uninitialized registry.
    pub fn new() -> (s: SeedRegistry)
        ensures
            s.registry.wf(),
            !s.registry.initialized,
            !s.registry.paused,
            s.registry.roles@ == Map::<u64, crate::roles::RoleFlags>::empty(),
            s.registry.seed_count == 0,
            s.registry.seeds@.len() == 0,
            s.registry.nft_contract is None,
    {
        SeedRegistry { registry: Registry::new() }
    }

    /// One-time setup: records the collection handle and grants `Admin`.
    pub fn initialize(&mut self, admin: u64, nft_contract: u64) -> (r: Result<(), Error>)
        requires
            old(self).registry.wf(),
        ensures
            final(self).registry.wf(),
            old(self).registry.initialized ==> r == Err::<(), Error>(Error::AlreadyInitialized)
                && *final(self) == *old(self),
            !old(self).registry.initialized ==> r is Ok && final(self).registry.initialized
                && !final(self).registry.paused && final(self).registry.nft_contract == Some(
                nft_contract,
            ) && final(self).registry.roles@ == spec_grant(
                old(self).registry.roles@,
                admin,
                Role::Admin,
            ) && final(self).registry.seeds == old(self).registry.seeds && final(self).registry.seed_count == old(self).registry.seed_count,
    {
        self.registry.initialize(admin, nft_contract)
    }

    /// The first check a single registration fails, if any.
    pub open spec fn spec_register_err(self, creator: u64, id: Seq<char>) -> Option<Error> {
        if self.registry.paused {
            Some(Error::Paused)
        } else if !spec_has_role(self.registry.roles@, creator, Role::Cultivator) {
            Some(Error::Unauthorized)
        } else if self.registry.spec_has_seed(id) {
            Some(Error::AlreadyExists)
        } else if self.registry.nft_contract is None {
            Some(Error::NotInitialized)
        } else if self.registry.seed_count == u64::MAX {
            Some(Error::InvalidInput)
        } else {
            None
        }
    }

    /// Registers one seed record under a fresh handle. The creator must hold
    /// `Cultivator`; an id registered before is refused.
    pub fn register_seed(
        &mut self,
        creator: u64,
        seed_id: String,
        variety: String,
        batch: String,
        origin_country: String,
        seed_bank: String,
        expected_thc: Option<u32>,
        expected_cbd: Option<u32>,
        organic_certified: bool,
        now: u64,
    ) -> (r: Result<u128, Error>)
        requires
            old(self).registry.wf(),
        ensures
            final(self).registry.wf(),
            r is Err <==> old(self).spec_register_err(creator, seed_id@) is Some,
            r matches Err(e) ==> Some(e) == old(self).spec_register_err(creator, seed_id@)
                && *final(self) == *old(self),
            r is Ok ==> r == Ok::<u128, Error>((old(self).registry.seed_count + 1) as u128)
                && final(self).registry.seeds@ == old(self).registry.seeds@.push(
                spec_new_seed(
                    seed_id,
                    creator,
                    variety,
                    batch,
                    origin_country,
                    seed_bank,
                    expected_thc,
                    expected_cbd,
                    organic_certified,
                    (old(self).registry.seed_count + 1) as u128,
                    old(self).registry.nft_contract.unwrap(),
                    now,
                ),
            ) && final(self).registry.seed_count == old(self).registry.seed_count + 1 && final(self).registry.roles == old(self).registry.roles && final(self).registry.paused == old(self).registry.paused && final(self).registry.initialized == old(self).registry.initialized && final(self).registry.nft_contract == old(self).registry.nft_contract,
    {
        match self.registry.require_not_paused() {
            Ok(_) => {},
            Err(e) => {
                return Err(e);
            },
        }
        match self.registry.require_role(creator, Role::Cultivator) {
            Ok(_) => {},
            Err(e) => {
                return Err(e);
            },
        }
        match self.registry.get_seed_data(&seed_id) {
            Some(_) => {
                return Err(Error::AlreadyExists);
            },
            None => {},
        }
        let nft_contract = match self.registry.get_nft_contract() {
            Some(v) => v,
            None => {
                return Err(Error::NotInitialized);
            },
        };
        if self.registry.get_seed_count() == u64::MAX {
            return Err(Error::InvalidInput);
        }
        let nft_id = (self.registry.get_seed_count() + 1) as u128;
        let data = SeedData {
            id: seed_id,
            created_at: now,
            creator,
            variety,
            batch,
            origin_country,
            seed_bank,
            expected_thc,
            expected_cbd,
            organic_certified,
            nft_id,
            nft_contract,
        };
        self.registry.add_seed(data);
        Ok(nft_id)
    }

    /// The first check a batch registration fails, if any.
    pub open spec fn spec_register_batch_err(
        self,
        creator: u64,
        n_ids: nat,
        n_varieties: nat,
        n_batches: nat,
        n_origins: nat,
        n_banks: nat,
        n_thcs: nat,
        n_cbds: nat,
        n_organics: nat,
    ) -> Option<Error> {
        if self.registry.paused {
            Some(Error::Paused)
        } else if !spec_has_role(self.registry.roles@, creator, Role::Cultivator) {
            Some(Error::Unauthorized)
        } else if n_ids != n_varieties || n_ids != n_batches || n_ids != n_origins || n_ids
            != n_banks || n_ids != n_thcs || n_ids != n_cbds || n_ids != n_organics {
            Some(Error::InvalidInput)
        } else if n_ids > 100 {
            Some(Error::InvalidInput)
        } else if self.registry.nft_contract is None {
            Some(Error::NotInitialized)
        } else if self.registry.seed_count > u64::MAX - 100 {
            Some(Error::InvalidInput)
        } else {
            None
        }
    }

    /// Registers up to 100 seeds in one call from parallel field lists; an id
    /// already registered — also by an earlier step of the same batch — is
    /// skipped, not an error. Returns the handles assigned, in order.
    pub fn register_seeds_batch(
        &mut self,
        creator: u64,
        seed_ids: Vec<String>,
        varieties: Vec<String>,
        batches: Vec<String>,
        origin_countries: Vec<String>,
        seed_banks: Vec<String>,
        expected_thcs: Vec<Option<u32>>,
        expected_cbds: Vec<Option<u32>>,
        organic_certified_flags: Vec<bool>,
        now: u64,
    ) -> (r: Result<Vec<u128>, Error>)
        requires
            old(self).registry.wf(),
        ensures
            final(self).registry.wf(),
            r is Err <==> old(self).spec_register_batch_err(
                creator,
                seed_ids@.len(),
                varieties@.len(),
                batches@.len(),
                origin_countries@.len(),
                seed_banks@.len(),
                expected_thcs@.len(),
                expected_cbds@.len(),
                organic_certified_flags@.len(),
            ) is Some,
            r matches Err(e) ==> Some(e) == old(self).spec_register_batch_err(
                creator,
                seed_ids@.len(),
                varieties@.len(),
                batches@.len(),
                origin_countries@.len(),
                seed_banks@.len(),
                expected_thcs@.len(),
                expected_cbds@.len(),
                organic_certified_flags@.len(),
            ) && *final(self) == *old(self),
            r matches Ok(handles) ==> ({
                let outcome = spec_batch(
                    old(self).registry.seeds@,
                    old(self).registry.seed_count,
                    creator,
                    old(self).registry.nft_contract.unwrap(),
                    now,
                    seed_ids@,
                    varieties@,
                    batches@,
                    origin_countries@,
                    seed_banks@,
                    expected_thcs@,
                    expected_cbds@,
                    organic_certified_flags@,
                    seed_ids@.len() as int,
                );
                &&& final(self).registry.seeds@ == outcome.0
                &&& final(self).registry.seed_count == outcome.1
                &&& handles@ == outcome.2
                &&& final(self).registry.roles == old(self).registry.roles
                &&& final(self).registry.paused == old(self).registry.paused
                &&& final(self).registry.initialized == old(self).registry.initialized
                &&& final(self).registry.nft_contract == old(self).registry.nft_contract
            }),
    {
        match self.registry.require_not_paused() {
            Ok(_) => {},
            Err(e) => {
                return Err(e);
            },
        }
        match self.registry.require_role(creator, Role::Cultivator) {
            Ok(_) => {},
            Err(e) => {
                return Err(e);
            },
        }
        let len = seed_ids.len();
        if len != varieties.len() || len != batches.len() || len != origin_countries.len() || len
            != seed_banks.len() || len != expected_thcs.len() || len != expected_cbds.len() || len
            != organic_certified_flags.len() {
            return Err(Error::InvalidInput);
        }
        if len > 100 {
            return Err(Error::InvalidInput);
        }
        let nft_contract = match self.registry.get_nft_contract() {
            Some(v) => v,
            None => {
                return Err(Error::NotInitialized);
            },
        };
        if self.registry.get_seed_count() > u64::MAX - 100 {
            return Err(Error::InvalidInput);
        }
        let ghost seeds0 = self.registry.seeds@;
        let ghost count0 = self.registry.seed_count;
        let mut nft_ids: Vec<u128> = Vec::new();
        let mut i: usize = 0;
        while i < len
            invariant
                old(self).registry.wf(),
                self.registry.wf(),
                i <= len,
                len == seed_ids@.len(),
                len == varieties@.len(),
                len == batches@.len(),
                len == origin_countries@.len(),
                len == seed_banks@.len(),
                len == expected_thcs@.len(),
                len == expected_cbds@.len(),
                len == organic_certified_flags@.len(),
                len <= 100,
                count0 <= u64::MAX - 100,
                count0 == old(self).registry.seed_count,
                seeds0 == old(self).registry.seeds@,
                nft_contract == old(self).registry.nft_contract.unwrap(),
                old(self).registry.nft_contract is Some,
                self.registry.seed_count <= count0 + i,
                (self.registry.seeds@, self.registry.seed_count, nft_ids@) == spec_batch(
                    seeds0,
                    count0,
                    creator,
                    nft_contract,
                    now,
                    seed_ids@,
                    varieties@,
                    batches@,
                    origin_countries@,
                    seed_banks@,
                    expected_thcs@,
                    expected_cbds@,
                    organic_certified_flags@,
                    i as int,
                ),
                self.registry.roles == old(self).registry.roles,
                self.registry.paused == old(self).registry.paused,
                self.registry.initialized == old(self).registry.initialized,
                self.registry.nft_contract == old(self).registry.nft_contract,
            decreases len - i,
        {
            let known = match self.registry.get_seed_data(&seed_ids[i]) {
                Some(_) => true,
                None => false,
            };
            if !known {
                let nft_id = (self.registry.get_seed_count() + 1) as u128;
                let data = SeedData {
                    id: seed_ids[i].clone(),
                    created_at: now,
                    creator,
                    variety: varieties[i].clone(),
                    batch: batches[i].clone(),
                    origin_country: origin_countries[i].clone(),
                    seed_bank: seed_banks[i].clone(),
                    expected_thc: expected_thcs[i],
                    expected_cbd: expected_cbds[i],
                    organic_certified: organic_certified_flags[i],
                    nft_id,
                    nft_contract,
                };
                self.registry.add_seed(data);
                nft_ids.push(nft_id);
            }
            i = i + 1;
        }
        Ok(nft_ids)
    }

    /// The record registered under `seed_id`, if any.
    pub fn get_seed(&self, seed_id: String) -> (r: Option<SeedData>)
        requires
            self.registry.wf(),
        ensures
            match r {
                Some(d) => self.registry.spec_has_seed(seed_id@) && d == self.registry.spec_seed(
                    seed_id@,
                ),
                None => !self.registry.spec_has_seed(seed_id@),
            },
    {
        match self.registry.get_seed_data(&seed_id) {
            Some(d) => Some(d.clone()),
            None => None,
        }
    }

    /// The number of records registered so far.
    pub fn get_seed_count(&self) -> (r: u64)
        ensures
            r == self.registry.seed_count,
    {
        self.registry.get_seed_count()
    }

    /// Every registered id, in registration order.
    pub fn get_all_seed_ids(&self) -> (r: Vec<String>)
        ensures
            r@.len() == self.registry.seeds@.len(),
            forall|i: int| 0 <= i < r@.len() ==> r@[i] == self.registry.seeds@[i].id,
    {
        self.registry.get_seed_ids()
    }

    /// The ids of every record with this variety, in registration order.
    pub fn query_seeds_by_variety(&self, variety: String) -> (r: Vec<String>)
        ensures
            r@ == spec_ids_by_variety(self.registry.seeds@, variety@),
    {
        let seeds = &self.registry.seeds;
        let mut out: Vec<String> = Vec::new();
        proof {
            assert(out@ =~= spec_ids_by_variety(seeds@.take(0), variety@));
        }
        let mut i: usize = 0;
        while i < seeds.len()
            invariant
                i <= seeds@.len(),
                out@ == spec_ids_by_variety(seeds@.take(i as int), variety@),
            decreases seeds@.len() - i,
        {
            if seeds[i].variety == variety {
                out.push(seeds[i].id.clone());
            }
            i = i + 1;
            proof {
                assert(seeds@.take(i as int).drop_last() =~= seeds@.take(i as int - 1));
                assert(seeds@.take(i as int).last() == seeds@[i as int - 1]);
            }
        }
        proof {
            assert(seeds@.take(seeds@.len() as int) =~= seeds@);
        }
        out
    }

    /// The ids of every record with this batch label, in registration order.
    pub fn query_seeds_by_batch(&self, batch: String) -> (r: Vec<String>)
        ensures
            r@ == spec_ids_by_batch(self.registry.seeds@, batch@),
    {
        let seeds = &self.registry.seeds;
        let mut out: Vec<String> = Vec::new();
        proof {
            assert(out@ =~= spec_ids_by_batch(seeds@.take(0), batch@));
        }
        let mut i: usize = 0;
        while i < seeds.len()
            invariant
                i <= seeds@.len(),
                out@ == spec_ids_by_batch(seeds@.take(i as int), batch@),
            decreases seeds@.len() - i,
        {
            if seeds[i].batch == batch {
                out.push(seeds[i].id.clone());
            }
            i = i + 1;
            proof {
                assert(seeds@.take(i as int).drop_last() =~= seeds@.take(i as int - 1));
                assert(seeds@.take(i as int).last() == seeds@[i as int - 1]);
            }
        }
        proof {
            assert(seeds@.take(seeds@.len() as int) =~= seeds@);
        }
        out
    }

    /// The ids of every record created by this identity, in registration
    /// order.
    pub fn query_seeds_by_creator(&self, creator: u64) -> (r: Vec<String>)
        ensures
            r@ == spec_ids_by_creator(self.registry.seeds@, creator),
    {
        let seeds = &self.registry.seeds;
        let mut out: Vec<String> = Vec::new();
        proof {
            assert(out@ =~= spec_ids_by_creator(seeds@.take(0), creator));
        }
        let mut i: usize = 0;
        while i < seeds.len()
            invariant
                i <= seeds@.len(),
                out@ == spec_ids_by_creator(seeds@.take(i as int), creator),
            decreases seeds@.len() - i,
        {
            if seeds[i].creator == creator {
                out.push(seeds[i].id.clone());
            }
            i = i + 1;
            proof {
                assert(seeds@.take(i as int).drop_last() =~= seeds@.take(i as int - 1));
                assert(seeds@.take(i as int).last() == seeds@[i as int - 1]);
            }
        }
        proof {
            assert(seeds@.take(seeds@.len() as int) =~= seeds@);
        }
        out
    }

    /// Membership toggle: grants `role` to `account`; `Admin` only.
    pub fn grant_role(&mut self, caller: u64, account: u64, role: Role) -> (r: Result<
        RoleGrantEvent,
        Error,
    >)
        requires
            old(self).registry.wf(),
        ensures
            final(self).registry.wf(),
            r is Ok <==> spec_has_role(old(self).registry.roles@, caller, Role::Admin),
            r matches Err(e) ==> e == Error::Unauthorized && *final(self) == *old(self),
            r is Ok ==> r == Ok::<RoleGrantEvent, Error>(RoleGrantEvent { account, role }) && final(self).registry.roles@ == spec_grant(old(self).registry.roles@, account, role) && *final(self) == (SeedRegistry {
                registry: Registry { roles: final(self).registry.roles, ..old(self).registry },
            }),
    {
        let check = self.registry.require_role(caller, Role::Admin);
        match check {
            Ok(_) => {
                self.registry.grant_role(account, role);
                Ok(RoleGrantEvent { account, role })
            },
            Err(e) => Err(e),
        }
    }

    /// Membership toggle: revokes `role` from `account`; `Admin` only.
    pub fn revoke_role(&mut self, caller: u64, account: u64, role: Role) -> (r: Result<
        RoleRevokeEvent,
        Error,
    >)
        requires
            old(self).registry.wf(),
        ensures
            final(self).registry.wf(),
            r is Ok <==> spec_has_role(old(self).registry.roles@, caller, Role::Admin),
            r matches Err(e) ==> e == Error::Unauthorized && *final(self) == *old(self),
            r is Ok ==> r == Ok::<RoleRevokeEvent, Error>(RoleRevokeEvent { account, role })
                && final(self).registry.roles@ == spec_revoke(
                old(self).registry.roles@,
                account,
                role,
            ) && *final(self) == (SeedRegistry {
                registry: Registry { roles: final(self).registry.roles, ..old(self).registry },
            }),
    {
        let check = self.registry.require_role(caller, Role::Admin);
        match check {
            Ok(_) => {
                self.registry.revoke_role(account, role);
                Ok(RoleRevokeEvent { account, role })
            },
            Err(e) => Err(e),
        }
    }

    /// Pure membership query; unknown pairs default to false.
    pub fn has_role(&self, account: u64, role: Role) -> (r: bool)
        ensures
            r == spec_has_role(self.registry.roles@, account, role),
    {
        self.registry.has_role(account, role)
    }

    /// Sets the pause flag; `Admin` only.
    pub fn pause(&mut self, caller: u64) -> (r: Result<PausedEvent, Error>)
        requires
            old(self).registry.wf(),
        ensures
            final(self).registry.wf(),
            r is Ok <==> spec_has_role(old(self).registry.roles@, caller, Role::Admin),
            r matches Err(e) ==> e == Error::Unauthorized && *final(self) == *old(self),
            r is Ok ==> r == Ok::<PausedEvent, Error>(PausedEvent { account: caller }) && *final(self) == (SeedRegistry { registry: Registry { paused: true, ..old(self).registry } }),
    {
        let check = self.registry.pause(caller);
        match check {
            Ok(_) => Ok(PausedEvent { account: caller }),
            Err(e) => Err(e),
        }
    }

    /// Clears the pause flag; `Admin` only.
    pub fn unpause(&mut self, caller: u64) -> (r: Result<UnpausedEvent, Error>)
        requires
            old(self).registry.wf(),
        ensures
            final(self).registry.wf(),
            r is Ok <==> spec_has_role(old(self).registry.roles@, caller, Role::Admin),
            r matches Err(e) ==> e == Error::Unauthorized && *final(self) == *old(self),
            r is Ok ==> r == Ok::<UnpausedEvent, Error>(UnpausedEvent { account: caller }) && *final(self) == (SeedRegistry { registry: Registry { paused: false, ..old(self).registry } }),
    {
        let check = self.registry.unpause(caller);
        match check {
            Ok(_) => Ok(UnpausedEvent { account: caller }),
            Err(e) => Err(e),
        }
    }

    /// Pure query on the pause flag.
    pub fn is_paused(&self) -> (r: bool)
        ensures
            r == self.registry.paused,
    {
        self.registry.paused
    }

    /// Re-points the registry at another collection handle; `Admin` only.
    pub fn set_nft_contract(&mut self, caller: u64, nft_contract: u64) -> (r: Result<(), Error>)
        requires
            old(self).registry.wf(),
        ensures
            final(self).registry.wf(),
            r is Ok <==> spec_has_role(old(self).registry.roles@, caller, Role::Admin),
            r matches Err(e) ==> e == Error::Unauthorized && *final(self) == *old(self),
            r is Ok ==> *final(self) == (SeedRegistry {
                registry: Registry { nft_contract: Some(nft_contract), ..old(self).registry },
            }),
    {
        self.registry.set_nft_contract(caller, nft_contract)
    }

    /// The collection handle recorded at initialization, if any.
    pub fn get_nft_contract(&self) -> (r: Option<u64>)
        ensures
            r == self.registry.nft_contract,
    {
        self.registry.get_nft_contract()
    }
}

} // verus!
