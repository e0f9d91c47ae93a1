//! The public operation surface over the asset ledger: mint, lifecycle
//! transition, metadata update, transfer, and role / whitelist / pause
//! administration. Every mutating operation first checks the pause flag, then
//! the caller's authorization, then the domain preconditions, and only then
//! mutates — a rejected operation leaves all stored state unchanged.

use std::collections::HashMap;

use vstd::prelude::*;

use crate::history::{lemma_log_of_push, History, StateTransition};
use crate::lifecycle::LifecycleState;
use crate::metadata::{clone_attributes, clone_opt_string, Attribute, OpenSeaMetadata, SeedMetadata};
use crate::nft::SeedNFT;
use crate::roles::{spec_grant, spec_has_role, spec_revoke, Role};

verus! {

broadcast use vstd::std_specs::hash::group_hash_axioms;

/// The failure conditions an operation can surface. Every failure is fatal to
/// its single operation and leaves stored state untouched.
#[derive(Clone, Copy, Debug, PartialEq, Eq, Structural)]
pub enum Error {
    Unauthorized,
    InvalidStateTransition,
    NotWhitelisted,
    Paused,
    TokenNotFound,
    AlreadyInitialized,
    AlreadyExists,
}

/// Notification of a successful mint.
#[derive(Clone, Copy, Debug, PartialEq, Eq, Structural)]
pub struct MintEvent {
    pub to: u64,
    pub token_id: u128,
}

/// Notification of a successful lifecycle transition. The stages appear under
/// their stable integer encoding.
#[derive(Clone, Copy, Debug, PartialEq, Eq, Structural)]
pub struct StateTransitionEvent {
    pub token_id: u128,
    pub from_state: u128,
    pub to_state: u128,
    pub updated_by: u64,
}

/// Notification of a successful metadata update.
#[derive(Clone, Copy, Debug, PartialEq, Eq, Structural)]
pub struct MetadataUpdateEvent {
    pub token_id: u128,
}

/// Notification of a whitelist change.
#[derive(Clone, Copy, Debug, PartialEq, Eq, Structural)]
pub struct WhitelistEvent {
    pub account: u64,
    pub added: bool,
}

/// Notification of a role grant.
#[derive(Clone, Copy, Debug, PartialEq, Eq, Structural)]
pub struct RoleGrantEvent {
    pub account: u64,
    pub role: Role,
}

/// Notification of a role revocation.
#[derive(Clone, Copy, Debug, PartialEq, Eq, Structural)]
pub struct RoleRevokeEvent {
    pub account: u64,
    pub role: Role,
}

/// Notification that the contract was paused.
#[derive(Clone, Copy, Debug, PartialEq, Eq, Structural)]
pub struct PausedEvent {
    pub account: u64,
}

/// Notification that the contract was unpaused.
#[derive(Clone, Copy, Debug, PartialEq, Eq, Structural)]
pub struct UnpausedEvent {
    pub account: u64,
}

/// The asset contract: the store, the history log, token ownership in mint
/// order, transfer approvals, and the collection's descriptive data.
pub struct SeedNFTContract {
    pub nft: SeedNFT,
    pub history: History,
    pub tokens: Vec<(u128, u64)>,
    pub approvals: HashMap<u128, u64>,
    pub initialized: bool,
    pub name: String,
    pub symbol: String,
}

impl SeedNFTContract {
    /// A token with this handle has been minted.
    pub open spec fn spec_has_token(self, token_id: u128) -> bool {
        exists|i: int| 0 <= i < self.tokens@.len() && self.tokens@[i].0 == token_id
    }

    /// The position of a handle in the mint-ordered ownership list.
    pub open spec fn spec_token_ix(self, token_id: u128) -> int {
        choose|i: int| 0 <= i < self.tokens@.len() && self.tokens@[i].0 == token_id
    }

    /// The current owner of a minted token.
    pub open spec fn spec_owner_of(self, token_id: u128) -> u64 {
        self.tokens@[self.spec_token_ix(token_id)].1
    }

    /// How many of the tokens listed in `s` belong to `owner`.
    pub open spec fn spec_owned_count(s: Seq<(u128, u64)>, owner: u64) -> nat
        decreases s.len(),
    {
        if s.len() == 0 {
            0
        } else {
            SeedNFTContract::spec_owned_count(s.drop_last(), owner) + if s.last().1 == owner {
                1nat
            } else {
                0nat
            }
        }
    }

    /// How many tokens an identity currently owns.
    pub open spec fn spec_balance_of(self, owner: u64) -> nat {
        SeedNFTContract::spec_owned_count(self.tokens@, owner)
    }

    /// The current lifecycle stage of a minted asset.
    pub open spec fn spec_stage(self, token_id: u128) -> LifecycleState {
        self.nft.metadata@[token_id].state
    }

    /// The ordered transition history of an asset.
    pub open spec fn spec_history(self, token_id: u128) -> Seq<StateTransition> {
        self.history.spec_all(token_id)
    }

    /// The history of one asset is a well-formed chain ending at a stage:
    /// each record moves to the single successor stage, consecutive records
    /// join up, the chain starts at `Seed`, and it ends at the given stage.
    pub open spec fn spec_chain_ends_at(tr: Seq<StateTransition>, stage: LifecycleState) -> bool {
        &&& (tr.len() == 0 ==> stage == LifecycleState::Seed)
        &&& (tr.len() > 0 ==> tr.last().to_state == stage && tr[0].from_state
            == LifecycleState::Seed)
        &&& (forall|i: int|
            0 <= i < tr.len() ==> #[trigger] tr[i].from_state.spec_can_transition_to(
                tr[i].to_state,
            ))
        &&& (forall|i: int| 1 <= i < tr.len() ==> #[trigger] tr[i].from_state == tr[i - 1].to_state)
    }

    /// Well-formedness: token handles are unique, the ledger and the
    /// ownership list know exactly the same handles, and every asset's
    /// history log agrees with its current stage.
    pub open spec fn wf(self) -> bool {
        &&& (forall|i: int, j: int|
            0 <= i < self.tokens@.len() && 0 <= j < self.tokens@.len()
                && #[trigger] self.tokens@[i].0 == #[trigger] self.tokens@[j].0 ==> i == j)
        &&& (forall|h: u128|
            #[trigger] self.nft.metadata@.contains_key(h) <==> self.spec_has_token(h))
        &&& (forall|h: u128|
            !self.nft.metadata@.contains_key(h) ==> (#[trigger] self.spec_history(h)).len() == 0)
        &&& (forall|h: u128|
            self.nft.metadata@.contains_key(h) ==> SeedNFTContract::spec_chain_ends_at(
                #[trigger] self.spec_history(h),
                self.spec_stage(h),
            ))
    }

    /// A fresh, uninitialized contract with no tokens.
    pub fn new() -> (c: SeedNFTContract)
        ensures
            c.wf(),
            !c.initialized,
            !c.nft.paused,
            c.nft.roles@ == Map::<u64, crate::roles::RoleFlags>::empty(),
            c.nft.whitelist@ == Set::<u64>::empty(),
            c.nft.metadata@ == Map::<u128, SeedMetadata>::empty(),
            c.tokens@.len() == 0,
            c.approvals@ == Map::<u128, u64>::empty(),
            c.history.entries@.len() == 0,
    {
        let c = SeedNFTContract {
            nft: SeedNFT::new(),
            history: History::new(),
            tokens: Vec::new(),
            approvals: HashMap::new(),
            initialized: false,
            name: String::new(),
            symbol: String::new(),
        };
        proof {
            assert(forall|h: u128| !c.spec_has_token(h));
            assert(forall|h: u128| c.spec_history(h) =~= Seq::<StateTransition>::empty());
        }
        c
    }

    /// Well-formedness depends only on the ledger, the ownership list and
    /// the history log: an operation that touches none of them preserves it.
    pub proof fn lemma_wf_frame(pre: SeedNFTContract, post: SeedNFTContract)
        requires
            pre.wf(),
            post.nft.metadata@ == pre.nft.metadata@,
            post.tokens@ == pre.tokens@,
            post.history.entries@ == pre.history.entries@,
        ensures
            post.wf(),
    {
        assert forall|h: u128| post.spec_has_token(h) == pre.spec_has_token(h) by {
            if pre.spec_has_token(h) {
                let i = choose|i: int|
                    0 <= i < pre.tokens@.len() && pre.tokens@[i].0 == h;
                assert(0 <= i < post.tokens@.len() && post.tokens@[i].0 == h);
            }
            if post.spec_has_token(h) {
                let i = choose|i: int|
                    0 <= i < post.tokens@.len() && post.tokens@[i].0 == h;
                assert(0 <= i < pre.tokens@.len() && pre.tokens@[i].0 == h);
            }
        }
        assert forall|h: u128| post.spec_history(h) == pre.spec_history(h) by {
            assert(post.history.entries@ == pre.history.entries@);
        }
        assert forall|h: u128|
            #[trigger] post.nft.metadata@.contains_key(h) <==> post.spec_has_token(h) by {
            assert(pre.nft.metadata@.contains_key(h) <==> pre.spec_has_token(h));
        }
        assert forall|h: u128| !post.nft.metadata@.contains_key(h) implies (
        #[trigger] post.spec_history(h)).len() == 0 by {
            assert(!pre.nft.metadata@.contains_key(h));
        }
        assert forall|h: u128| post.nft.metadata@.contains_key(h)
            implies SeedNFTContract::spec_chain_ends_at(
            #[trigger] post.spec_history(h),
            post.spec_stage(h),
        ) by {
            assert(pre.nft.metadata@.contains_key(h));
            assert(post.spec_stage(h) == pre.spec_stage(h));
        }
    }

    /// Everything but the role store, whitelist and pause flag is unchanged.
    pub open spec fn spec_admin_frame(pre: SeedNFTContract, post: SeedNFTContract) -> bool {
        &&& post.nft.metadata == pre.nft.metadata
        &&& post.history == pre.history
        &&& post.tokens == pre.tokens
        &&& post.approvals == pre.approvals
        &&& post.initialized == pre.initialized
        &&& post.name == pre.name
        &&& post.symbol == pre.symbol
    }

    /// One-time setup: grants `Admin` to `admin`, clears the pause flag and
    /// records the collection's name and symbol. Fails once initialized.
    pub fn initialize(&mut self, admin: u64, name: String, symbol: String) -> (r: Result<
        (),
        Error,
    >)
        requires
            old(self).wf(),
        ensures
            final(self).wf(),
            old(self).initialized ==> r == Err::<(), Error>(Error::AlreadyInitialized) && *final(self) == *old(self),
            !old(self).initialized ==> r is Ok && final(self).initialized && !final(self).nft.paused && final(self).nft.roles@ == spec_grant(
                old(self).nft.roles@,
                admin,
                Role::Admin,
            ) && final(self).name == name && final(self).symbol == symbol && final(self).nft.whitelist
                == old(self).nft.whitelist && final(self).nft.metadata == old(self).nft.metadata
                && final(self).history == old(self).history && final(self).tokens == old(self).tokens && final(self).approvals == old(self).approvals,
    {
        if self.initialized {
            return Err(Error::AlreadyInitialized);
        }
        self.initialized = true;
        self.nft.paused = false;
        self.nft.grant_role(admin, Role::Admin);
        self.name = name;
        self.symbol = symbol;
        proof {
            SeedNFTContract::lemma_wf_frame(*old(self), *self);
        }
        Ok(())
    }

    /// Membership toggle: grants `role` to `account`; only an `Admin` caller
    /// may do so. Idempotent.
    pub fn grant_role(&mut self, caller: u64, account: u64, role: Role) -> (r: Result<
        RoleGrantEvent,
        Error,
    >)
        requires
            old(self).wf(),
        ensures
            final(self).wf(),
            r is Ok <==> spec_has_role(old(self).nft.roles@, caller, Role::Admin),
            r matches Err(e) ==> e == Error::Unauthorized && *final(self) == *old(self),
            r is Ok ==> r == Ok::<RoleGrantEvent, Error>(RoleGrantEvent { account, role })
                && final(self).nft.roles@ == spec_grant(old(self).nft.roles@, account, role)
                && final(self).nft.whitelist == old(self).nft.whitelist && final(self).nft.paused
                == old(self).nft.paused && SeedNFTContract::spec_admin_frame(*old(self), *final(self)),
    {
        let check = self.nft.require_role(caller, Role::Admin);
        match check {
            Ok(_) => {
                self.nft.grant_role(account, role);
                proof {
                    SeedNFTContract::lemma_wf_frame(*old(self), *self);
                }
                Ok(RoleGrantEvent { account, role })
            },
            Err(e) => Err(e),
        }
    }

    /// Membership toggle: revokes `role` from `account`; only an `Admin`
    /// caller may do so. Idempotent.
    pub fn revoke_role(&mut self, caller: u64, account: u64, role: Role) -> (r: Result<
        RoleRevokeEvent,
        Error,
    >)
        requires
            old(self).wf(),
        ensures
            final(self).wf(),
            r is Ok <==> spec_has_role(old(self).nft.roles@, caller, Role::Admin),
            r matches Err(e) ==> e == Error::Unauthorized && *final(self) == *old(self),
            r is Ok ==> r == Ok::<RoleRevokeEvent, Error>(RoleRevokeEvent { account, role })
                && final(self).nft.roles@ == spec_revoke(old(self).nft.roles@, account, role)
                && final(self).nft.whitelist == old(self).nft.whitelist && final(self).nft.paused
                == old(self).nft.paused && SeedNFTContract::spec_admin_frame(*old(self), *final(self)),
    {
        let check = self.nft.require_role(caller, Role::Admin);
        match check {
            Ok(_) => {
                self.nft.revoke_role(account, role);
                proof {
                    SeedNFTContract::lemma_wf_frame(*old(self), *self);
                }
                Ok(RoleRevokeEvent { account, role })
            },
            Err(e) => Err(e),
        }
    }

    /// Pure query: does `account` hold `role`? Unknown pairs default to
    /// false.
    pub fn has_role(&self, account: u64, role: Role) -> (r: bool)
        ensures
            r == spec_has_role(self.nft.roles@, account, role),
    {
        self.nft.has_role(account, role)
    }

    /// Sets the process-wide pause flag; `Admin` only.
    pub fn pause(&mut self, caller: u64) -> (r: Result<PausedEvent, Error>)
        requires
            old(self).wf(),
        ensures
            final(self).wf(),
            r is Ok <==> spec_has_role(old(self).nft.roles@, caller, Role::Admin),
            r matches Err(e) ==> e == Error::Unauthorized && *final(self) == *old(self),
            r is Ok ==> r == Ok::<PausedEvent, Error>(PausedEvent { account: caller }) && final(self).nft.paused && final(self).nft.roles == old(self).nft.roles && final(self).nft.whitelist == old(self).nft.whitelist && SeedNFTContract::spec_admin_frame(
                *old(self),
                *final(self),
            ),
    {
        let check = self.nft.pause(caller);
        match check {
            Ok(_) => {
                proof {
                    SeedNFTContract::lemma_wf_frame(*old(self), *self);
                }
                Ok(PausedEvent { account: caller })
            },
            Err(e) => Err(e),
        }
    }

    /// Clears the process-wide pause flag; `Admin` only.
    pub fn unpause(&mut self, caller: u64) -> (r: Result<UnpausedEvent, Error>)
        requires
            old(self).wf(),
        ensures
            final(self).wf(),
            r is Ok <==> spec_has_role(old(self).nft.roles@, caller, Role::Admin),
            r matches Err(e) ==> e == Error::Unauthorized && *final(self) == *old(self),
            r is Ok ==> r == Ok::<UnpausedEvent, Error>(UnpausedEvent { account: caller }) && !final(self).nft.paused && final(self).nft.roles == old(self).nft.roles && final(self).nft.whitelist == old(self).nft.whitelist && SeedNFTContract::spec_admin_frame(
                *old(self),
                *final(self),
            ),
    {
        let check = self.nft.unpause(caller);
        match check {
            Ok(_) => {
                proof {
                    SeedNFTContract::lemma_wf_frame(*old(self), *self);
                }
                Ok(UnpausedEvent { account: caller })
            },
            Err(e) => Err(e),
        }
    }

    /// Pure query on the pause flag.
    pub fn is_paused(&self) -> (r: bool)
        ensures
            r == self.nft.paused,
    {
        self.nft.paused
    }

    /// Whitelists `account` as eligible to receive transfers; `Admin` only.
    pub fn add_to_whitelist(&mut self, caller: u64, account: u64) -> (r: Result<
        WhitelistEvent,
        Error,
    >)
        requires
            old(self).wf(),
        ensures
            final(self).wf(),
            r is Ok <==> spec_has_role(old(self).nft.roles@, caller, Role::Admin),
            r matches Err(e) ==> e == Error::Unauthorized && *final(self) == *old(self),
            r is Ok ==> r == Ok::<WhitelistEvent, Error>(WhitelistEvent { account, added: true })
                && final(self).nft.whitelist@ == old(self).nft.whitelist@.insert(account) && final(self).nft.roles == old(self).nft.roles && final(self).nft.paused == old(self).nft.paused
                && SeedNFTContract::spec_admin_frame(*old(self), *final(self)),
    {
        let check = self.nft.add_to_whitelist(caller, account);
        match check {
            Ok(_) => {
                proof {
                    SeedNFTContract::lemma_wf_frame(*old(self), *self);
                }
                Ok(WhitelistEvent { account, added: true })
            },
            Err(e) => Err(e),
        }
    }

    /// Removes `account` from the whitelist; `Admin` only.
    pub fn remove_from_whitelist(&mut self, caller: u64, account: u64) -> (r: Result<
        WhitelistEvent,
        Error,
    >)
        requires
            old(self).wf(),
        ensures
            final(self).wf(),
            r is Ok <==> spec_has_role(old(self).nft.roles@, caller, Role::Admin),
            r matches Err(e) ==> e == Error::Unauthorized && *final(self) == *old(self),
            r is Ok ==> r == Ok::<WhitelistEvent, Error>(WhitelistEvent { account, added: false })
                && final(self).nft.whitelist@ == old(self).nft.whitelist@.remove(account) && final(self).nft.roles == old(self).nft.roles && final(self).nft.paused == old(self).nft.paused
                && SeedNFTContract::spec_admin_frame(*old(self), *final(self)),
    {
        let check = self.nft.remove_from_whitelist(caller, account);
        match check {
            Ok(_) => {
                proof {
                    SeedNFTContract::lemma_wf_frame(*old(self), *self);
                }
                Ok(WhitelistEvent { account, added: false })
            },
            Err(e) => Err(e),
        }
    }

    /// Pure query on whitelist membership.
    pub fn is_whitelisted(&self, account: u64) -> (r: bool)
        ensures
            r == self.nft.whitelist@.contains(account),
    {
        self.nft.is_whitelisted(account)
    }

    /// The collection name recorded at initialization.
    pub fn name(&self) -> (r: String)
        ensures
            r == self.name,
    {
        self.name.clone()
    }

    /// The collection symbol recorded at initialization.
    pub fn symbol(&self) -> (r: String)
        ensures
            r == self.symbol,
    {
        self.symbol.clone()
    }

    /// The current record of an asset, or `None` for an unknown handle.
    pub fn get_metadata(&self, token_id: u128) -> (r: Option<&SeedMetadata>)
        ensures
            match r {
                Some(m) => self.nft.metadata@.contains_key(token_id) && *m
                    == self.nft.metadata@[token_id],
                None => !self.nft.metadata@.contains_key(token_id),
            },
    {
        self.nft.get_metadata(token_id)
    }

    /// The ordered transition history of an asset, oldest first; empty for an
    /// asset with no transitions yet.
    pub fn get_history(&self, token_id: u128) -> (r: Vec<StateTransition>)
        ensures
            r@ == self.spec_history(token_id),
    {
        self.history.get_history(token_id)
    }

    /// The position of a handle in the ownership list, if it was minted.
    fn token_index(&self, token_id: u128) -> (r: Option<usize>)
        ensures
            match r {
                Some(i) => i < self.tokens@.len() && self.tokens@[i as int].0 == token_id,
                None => !self.spec_has_token(token_id),
            },
    {
        let mut i: usize = 0;
        while i < self.tokens.len()
            invariant
                i <= self.tokens@.len(),
                forall|j: int| 0 <= j < i ==> self.tokens@[j].0 != token_id,
            decreases self.tokens@.len() - i,
        {
            if self.tokens[i].0 == token_id {
                return Some(i);
            }
            i = i + 1;
        }
        None
    }

    /// The current owner of a minted token, or `None` for an unknown handle.
    pub fn owner_of(&self, token_id: u128) -> (r: Option<u64>)
        requires
            self.wf(),
        ensures
            match r {
                Some(o) => self.spec_has_token(token_id) && o == self.spec_owner_of(token_id),
                None => !self.spec_has_token(token_id),
            },
    {
        match self.token_index(token_id) {
            Some(i) => {
                proof {
                    let j = self.spec_token_ix(token_id);
                    assert(0 <= j < self.tokens@.len() && self.tokens@[j].0 == token_id);
                    assert(j == i as int);
                }
                Some(self.tokens[i].1)
            },
            None => None,
        }
    }

    /// How many tokens `owner` currently owns.
    pub fn balance_of(&self, owner: u64) -> (r: usize)
        ensures
            r == self.spec_balance_of(owner),
    {
        let mut count: usize = 0;
        let mut i: usize = 0;
        proof {
            assert(self.tokens@.take(0) =~= Seq::<(u128, u64)>::empty());
        }
        while i < self.tokens.len()
            invariant
                i <= self.tokens@.len(),
                count == SeedNFTContract::spec_owned_count(self.tokens@.take(i as int), owner),
                count <= i,
            decreases self.tokens@.len() - i,
        {
            proof {
                let prefix = self.tokens@.take(i as int + 1);
                assert(prefix.drop_last() =~= self.tokens@.take(i as int));
                assert(prefix.last() == self.tokens@[i as int]);
            }
            if self.tokens[i].1 == owner {
                count = count + 1;
            }
            i = i + 1;
        }
        proof {
            assert(self.tokens@.take(self.tokens@.len() as int) =~= self.tokens@);
        }
        count
    }

    /// Minting preserves well-formedness: the new handle was unknown, starts
    /// at `Seed`, and has no history.
    proof fn lemma_wf_after_mint(
        pre: SeedNFTContract,
        post: SeedNFTContract,
        token_id: u128,
        to: u64,
        meta: SeedMetadata,
    )
        requires
            pre.wf(),
            !pre.spec_has_token(token_id),
            meta.state == LifecycleState::Seed,
            post.tokens@ == pre.tokens@.push((token_id, to)),
            post.nft.metadata@ == pre.nft.metadata@.insert(token_id, meta),
            post.history.entries@ == pre.history.entries@,
        ensures
            post.wf(),
    {
        let n = pre.tokens@.len() as int;
        assert forall|i: int, j: int|
            0 <= i < post.tokens@.len() && 0 <= j < post.tokens@.len()
                && #[trigger] post.tokens@[i].0 == #[trigger] post.tokens@[j].0 implies i == j by {
            if i < n && j < n {
                assert(pre.tokens@[i].0 == pre.tokens@[j].0);
            } else if i < n && j == n {
                assert(pre.tokens@[i].0 == token_id);
            } else if i == n && j < n {
                assert(pre.tokens@[j].0 == token_id);
            }
        }
        assert forall|h: u128| post.spec_has_token(h) == (pre.spec_has_token(h) || h
            == token_id) by {
            if pre.spec_has_token(h) {
                let i = choose|i: int| 0 <= i < pre.tokens@.len() && pre.tokens@[i].0 == h;
                assert(post.tokens@[i].0 == h);
            }
            if h == token_id {
                assert(post.tokens@[n].0 == h);
            }
            if post.spec_has_token(h) && h != token_id {
                let i = choose|i: int| 0 <= i < post.tokens@.len() && post.tokens@[i].0 == h;
                assert(i < n);
                assert(pre.tokens@[i].0 == h);
            }
        }
        assert forall|h: u128| post.spec_history(h) == pre.spec_history(h) by {
            assert(post.history.entries@ == pre.history.entries@);
        }
        assert(pre.spec_history(token_id).len() == 0);
        assert forall|h: u128|
            #[trigger] post.nft.metadata@.contains_key(h) <==> post.spec_has_token(h) by {
            assert(pre.nft.metadata@.contains_key(h) <==> pre.spec_has_token(h));
        }
        assert forall|h: u128| post.nft.metadata@.contains_key(h)
            implies SeedNFTContract::spec_chain_ends_at(
            #[trigger] post.spec_history(h),
            post.spec_stage(h),
        ) by {
            if h == token_id {
                assert(post.spec_history(h).len() == 0);
                assert(post.spec_stage(h) == LifecycleState::Seed);
            } else {
                assert(pre.nft.metadata@.contains_key(h));
                assert(post.spec_stage(h) == pre.spec_stage(h));
            }
        }
    }

    /// Creates an asset at stage `Seed` with the given descriptive fields and
    /// all optional fields cleared. Fails if the handle is already in use.
    /// Authorization is the upstream allocator's concern, not this core's.
    pub fn mint(
        &mut self,
        to: u64,
        token_id: u128,
        name: String,
        description: String,
        image: String,
        external_url: Option<String>,
        attributes: Vec<Attribute>,
        now: u64,
    ) -> (r: Result<MintEvent, Error>)
        requires
            old(self).wf(),
        ensures
            final(self).wf(),
            r is Ok <==> !old(self).spec_has_token(token_id),
            r matches Err(e) ==> e == Error::AlreadyExists && *final(self) == *old(self),
            r is Ok ==> r == Ok::<MintEvent, Error>(MintEvent { to, token_id }) && final(self).tokens@ == old(self).tokens@.push((token_id, to)) && final(self).nft.metadata@ == old(self).nft.metadata@.insert(
                token_id,
                (SeedMetadata {
                    state: LifecycleState::Seed,
                    location: None,
                    temperature: None,
                    humidity: None,
                    lab_analysis: None,
                    processor: None,
                    distributor: None,
                    consumer: None,
                    updated_at: now,
                    name,
                    description,
                    image,
                    external_url,
                    attributes,
                }),
            ) && final(self).history == old(self).history && final(self).approvals == old(self).approvals && final(self).nft.roles == old(self).nft.roles && final(self).nft.whitelist == old(self).nft.whitelist && final(self).nft.paused == old(self).nft.paused && final(self).initialized == old(self).initialized && final(self).name
                == old(self).name && final(self).symbol == old(self).symbol,
    {
        match self.token_index(token_id) {
            Some(_) => {
                return Err(Error::AlreadyExists);
            },
            None => {},
        }
        let meta = SeedMetadata {
            state: LifecycleState::Seed,
            location: None,
            temperature: None,
            humidity: None,
            lab_analysis: None,
            processor: None,
            distributor: None,
            consumer: None,
            updated_at: now,
            name,
            description,
            image,
            external_url,
            attributes,
        };
        self.tokens.push((token_id, to));
        self.nft.store_metadata(token_id, meta);
        proof {
            SeedNFTContract::lemma_wf_after_mint(
                *old(self),
                *self,
                token_id,
                to,
                self.nft.metadata@[token_id],
            );
        }
        Ok(MintEvent { to, token_id })
    }

    /// The first check a transition request fails, if any: the pause gate,
    /// then decoding of the target stage, then the role derived from the
    /// target, then asset existence, then state-machine legality.
    pub open spec fn spec_update_state_err(
        self,
        caller: u64,
        token_id: u128,
        new_state: u32,
    ) -> Option<Error> {
        if self.nft.paused {
            Some(Error::Paused)
        } else {
            match LifecycleState::spec_from_u32(new_state) {
                None => Some(Error::InvalidStateTransition),
                Some(st) => match LifecycleState::spec_required_role(st) {
                    None => Some(Error::InvalidStateTransition),
                    Some(role) => if !spec_has_role(self.nft.roles@, caller, role) {
                        Some(Error::Unauthorized)
                    } else if !self.nft.metadata@.contains_key(token_id) {
                        Some(Error::TokenNotFound)
                    } else if !self.spec_stage(token_id).spec_can_transition_to(st) {
                        Some(Error::InvalidStateTransition)
                    } else {
                        None
                    },
                },
            }
        }
    }

    /// A successful transition preserves well-formedness: the one touched
    /// asset's chain is extended by the matching record, every other asset is
    /// untouched.
    proof fn lemma_wf_after_transition(
        pre: SeedNFTContract,
        post: SeedNFTContract,
        token_id: u128,
        tr: StateTransition,
    )
        requires
            pre.wf(),
            pre.nft.metadata@.contains_key(token_id),
            tr.from_state == pre.spec_stage(token_id),
            tr.from_state.spec_can_transition_to(tr.to_state),
            post.nft.metadata@.contains_key(token_id),
            post.nft.metadata@[token_id].state == tr.to_state,
            post.nft.metadata@.dom() == pre.nft.metadata@.dom(),
            forall|h: u128|
                h != token_id && pre.nft.metadata@.contains_key(h)
                    ==> post.nft.metadata@[h] == pre.nft.metadata@[h],
            post.tokens@ == pre.tokens@,
            post.history.entries@ == pre.history.entries@.push((token_id, tr)),
        ensures
            post.wf(),
            post.spec_history(token_id) == pre.spec_history(token_id).push(tr),
            forall|h: u128| h != token_id ==> post.spec_history(h) == pre.spec_history(h),
    {
        assert forall|h: u128| post.spec_has_token(h) == pre.spec_has_token(h) by {
            if pre.spec_has_token(h) {
                let i = choose|i: int| 0 <= i < pre.tokens@.len() && pre.tokens@[i].0 == h;
                assert(0 <= i < post.tokens@.len() && post.tokens@[i].0 == h);
            }
            if post.spec_has_token(h) {
                let i = choose|i: int| 0 <= i < post.tokens@.len() && post.tokens@[i].0 == h;
                assert(0 <= i < pre.tokens@.len() && pre.tokens@[i].0 == h);
            }
        }
        assert forall|h: u128|
            #[trigger] post.nft.metadata@.contains_key(h) == pre.nft.metadata@.contains_key(h) by {
            assert(post.nft.metadata@.dom() == pre.nft.metadata@.dom());
        }
        lemma_log_of_push(pre.history.entries@, (token_id, tr), token_id);
        assert forall|h: u128| h != token_id implies post.spec_history(h) == pre.spec_history(
            h,
        ) by {
            lemma_log_of_push(pre.history.entries@, (token_id, tr), h);
        }
        let oldtr = pre.spec_history(token_id);
        let newtr = post.spec_history(token_id);
        assert(newtr == oldtr.push(tr));
        assert(SeedNFTContract::spec_chain_ends_at(oldtr, tr.from_state));
        assert forall|i: int|
            0 <= i < newtr.len() implies #[trigger] newtr[i].from_state.spec_can_transition_to(
            newtr[i].to_state,
        ) by {
            if i < oldtr.len() {
                assert(newtr[i] == oldtr[i]);
            } else {
                assert(newtr[i] == tr);
            }
        }
        assert forall|i: int| 1 <= i < newtr.len() implies #[trigger] newtr[i].from_state == newtr[i
            - 1].to_state by {
            if i < oldtr.len() {
                assert(newtr[i] == oldtr[i] && newtr[i - 1] == oldtr[i - 1]);
            } else {
                assert(newtr[i] == tr);
                if oldtr.len() > 0 {
                    assert(newtr[i - 1] == oldtr.last());
                }
            }
        }
        assert(newtr[0].from_state == LifecycleState::Seed);
        assert(SeedNFTContract::spec_chain_ends_at(newtr, tr.to_state));
        assert forall|h: u128| post.nft.metadata@.contains_key(h)
            implies SeedNFTContract::spec_chain_ends_at(
            #[trigger] post.spec_history(h),
            post.spec_stage(h),
        ) by {
            if h != token_id {
                assert(pre.nft.metadata@.contains_key(h));
                assert(post.spec_stage(h) == pre.spec_stage(h));
            }
        }
        assert forall|h: u128| !post.nft.metadata@.contains_key(h) implies (
        #[trigger] post.spec_history(h)).len() == 0 by {
            assert(!pre.nft.metadata@.contains_key(h));
            assert(h != token_id);
        }
    }

    /// Moves an asset to the single next stage. The caller must hold the role
    /// that the target stage requires; the environmental fields are
    /// overwritten unconditionally; entering `Processed` or `Distributed`
    /// records the acting identity, entering `Consumed` records the asset's
    /// current owner. Exactly one history record is appended per success.
    pub fn update_state(
        &mut self,
        caller: u64,
        token_id: u128,
        new_state: u32,
        location: Option<String>,
        temperature: Option<i32>,
        humidity: Option<u32>,
        notes: Option<String>,
        now: u64,
    ) -> (r: Result<StateTransitionEvent, Error>)
        requires
            old(self).wf(),
        ensures
            final(self).wf(),
            r is Err <==> old(self).spec_update_state_err(caller, token_id, new_state) is Some,
            r matches Err(e) ==> Some(e) == old(self).spec_update_state_err(
                caller,
                token_id,
                new_state,
            ) && *final(self) == *old(self),
            r is Ok ==> ({
                let st = LifecycleState::spec_from_u32(new_state).unwrap();
                let from = old(self).spec_stage(token_id);
                let tr = StateTransition {
                    from_state: from,
                    to_state: st,
                    timestamp: now,
                    updated_by: caller,
                    notes,
                };
                let m = final(self).nft.metadata@[token_id];
                let m0 = old(self).nft.metadata@[token_id];
                &&& r == Ok::<StateTransitionEvent, Error>(
                    StateTransitionEvent {
                        token_id,
                        from_state: from.spec_to_u32() as u128,
                        to_state: st.spec_to_u32() as u128,
                        updated_by: caller,
                    },
                )
                &&& final(self).history.entries@ == old(self).history.entries@.push(
                    (token_id, tr),
                )
                &&& final(self).spec_history(token_id) == old(self).spec_history(token_id).push(tr)
                &&& forall|h: u128|
                    h != token_id ==> final(self).spec_history(h) == old(self).spec_history(h)
                &&& final(self).nft.metadata@.dom() == old(self).nft.metadata@.dom()
                &&& forall|h: u128|
                    h != token_id && old(self).nft.metadata@.contains_key(h) ==> final(self).nft.metadata@[h] == old(self).nft.metadata@[h]
                &&& m.state == st
                &&& m.location == location
                &&& m.temperature == temperature
                &&& m.humidity == humidity
                &&& m.updated_at == now
                &&& m.lab_analysis == m0.lab_analysis
                &&& m.processor == (if st == LifecycleState::Processed {
                    Some(caller)
                } else {
                    m0.processor
                })
                &&& m.distributor == (if st == LifecycleState::Distributed {
                    Some(caller)
                } else {
                    m0.distributor
                })
                &&& m.consumer == (if st == LifecycleState::Consumed {
                    Some(old(self).spec_owner_of(token_id))
                } else {
                    m0.consumer
                })
                &&& m.name == m0.name
                &&& m.description == m0.description
                &&& m.image == m0.image
                &&& m.external_url == m0.external_url
                &&& m.attributes@ == m0.attributes@
                &&& final(self).tokens == old(self).tokens
                &&& final(self).approvals == old(self).approvals
                &&& final(self).nft.roles == old(self).nft.roles
                &&& final(self).nft.whitelist == old(self).nft.whitelist
                &&& final(self).nft.paused == old(self).nft.paused
                &&& final(self).initialized == old(self).initialized
                &&& final(self).name == old(self).name
                &&& final(self).symbol == old(self).symbol
            }),
    {
        match self.nft.require_not_paused() {
            Ok(_) => {},
            Err(e) => {
                return Err(e);
            },
        }
        let st = match LifecycleState::from_u32(new_state) {
            Some(s) => s,
            None => {
                return Err(Error::InvalidStateTransition);
            },
        };
        let role = match LifecycleState::required_role(st) {
            Some(r) => r,
            None => {
                return Err(Error::InvalidStateTransition);
            },
        };
        match self.nft.require_role(caller, role) {
            Ok(_) => {},
            Err(e) => {
                return Err(e);
            },
        }
        let from = match self.nft.get_metadata(token_id) {
            Some(m) => m.state,
            None => {
                return Err(Error::TokenNotFound);
            },
        };
        if !from.can_transition_to(st) {
            return Err(Error::InvalidStateTransition);
        }
        let consumer_record: Option<u64> = if st == LifecycleState::Consumed {
            match self.token_index(token_id) {
                Some(i) => {
                    proof {
                        let j = self.spec_token_ix(token_id);
                        assert(0 <= j < self.tokens@.len() && self.tokens@[j].0 == token_id);
                        assert(j == i as int);
                    }
                    Some(self.tokens[i].1)
                },
                None => {
                    proof {
                        assert(false);
                    }
                    None
                },
            }
        } else {
            None
        };
        let new_meta = match self.nft.get_metadata(token_id) {
            Some(cur) => SeedMetadata {
                state: st,
                location,
                temperature,
                humidity,
                lab_analysis: clone_opt_string(&cur.lab_analysis),
                processor: if st == LifecycleState::Processed {
                    Some(caller)
                } else {
                    cur.processor
                },
                distributor: if st == LifecycleState::Distributed {
                    Some(caller)
                } else {
                    cur.distributor
                },
                consumer: if st == LifecycleState::Consumed {
                    consumer_record
                } else {
                    cur.consumer
                },
                updated_at: now,
                name: cur.name.clone(),
                description: cur.description.clone(),
                image: cur.image.clone(),
                external_url: clone_opt_string(&cur.external_url),
                attributes: clone_attributes(&cur.attributes),
            },
            None => {
                proof {
                    assert(false);
                }
                return Err(Error::TokenNotFound);
            },
        };
        self.nft.store_metadata(token_id, new_meta);
        let transition = StateTransition {
            from_state: from,
            to_state: st,
            timestamp: now,
            updated_by: caller,
            notes,
        };
        let ghost tr = transition;
        self.history.add_transition(token_id, transition);
        proof {
            assert(self.nft.metadata@.dom() =~= old(self).nft.metadata@.dom());
            SeedNFTContract::lemma_wf_after_transition(*old(self), *self, token_id, tr);
        }
        Ok(
            StateTransitionEvent {
                token_id,
                from_state: from.to_u32() as u128,
                to_state: st.to_u32() as u128,
                updated_by: caller,
            },
        )
    }

    /// The first check a metadata update fails, if any: the pause gate, then
    /// the `Cultivator` role, then asset existence.
    pub open spec fn spec_update_metadata_err(self, caller: u64, token_id: u128) -> Option<Error> {
        if self.nft.paused {
            Some(Error::Paused)
        } else if !spec_has_role(self.nft.roles@, caller, Role::Cultivator) {
            Some(Error::Unauthorized)
        } else if !self.nft.metadata@.contains_key(token_id) {
            Some(Error::TokenNotFound)
        } else {
            None
        }
    }

    /// An update that keeps an asset's stage and touches no other asset, the
    /// ownership list or the history log preserves well-formedness.
    proof fn lemma_wf_after_meta_update(pre: SeedNFTContract, post: SeedNFTContract, token_id: u128)
        requires
            pre.wf(),
            pre.nft.metadata@.contains_key(token_id),
            post.nft.metadata@.dom() == pre.nft.metadata@.dom(),
            post.nft.metadata@[token_id].state == pre.nft.metadata@[token_id].state,
            forall|h: u128|
                h != token_id && pre.nft.metadata@.contains_key(h) ==> post.nft.metadata@[h]
                    == pre.nft.metadata@[h],
            post.tokens@ == pre.tokens@,
            post.history.entries@ == pre.history.entries@,
        ensures
            post.wf(),
    {
        assert forall|h: u128| post.spec_has_token(h) == pre.spec_has_token(h) by {
            if pre.spec_has_token(h) {
                let i = choose|i: int| 0 <= i < pre.tokens@.len() && pre.tokens@[i].0 == h;
                assert(0 <= i < post.tokens@.len() && post.tokens@[i].0 == h);
            }
            if post.spec_has_token(h) {
                let i = choose|i: int| 0 <= i < post.tokens@.len() && post.tokens@[i].0 == h;
                assert(0 <= i < pre.tokens@.len() && pre.tokens@[i].0 == h);
            }
        }
        assert forall|h: u128|
            #[trigger] post.nft.metadata@.contains_key(h) == pre.nft.metadata@.contains_key(h) by {
            assert(post.nft.metadata@.dom() == pre.nft.metadata@.dom());
        }
        assert forall|h: u128| post.spec_history(h) == pre.spec_history(h) by {
            assert(post.history.entries@ == pre.history.entries@);
        }
        assert forall|h: u128| post.nft.metadata@.contains_key(h)
            implies SeedNFTContract::spec_chain_ends_at(
            #[trigger] post.spec_history(h),
            post.spec_stage(h),
        ) by {
            assert(pre.nft.metadata@.contains_key(h));
            assert(post.spec_stage(h) == pre.spec_stage(h));
        }
    }

    /// Merges only the supplied fields into an asset's record: every field
    /// passed as `None` keeps its prior value; the update timestamp is always
    /// refreshed. Requires the `Cultivator` role.
    pub fn update_metadata(
        &mut self,
        caller: u64,
        token_id: u128,
        location: Option<String>,
        temperature: Option<i32>,
        humidity: Option<u32>,
        lab_analysis: Option<String>,
        opensea_metadata: Option<OpenSeaMetadata>,
        now: u64,
    ) -> (r: Result<MetadataUpdateEvent, Error>)
        requires
            old(self).wf(),
        ensures
            final(self).wf(),
            r is Err <==> old(self).spec_update_metadata_err(caller, token_id) is Some,
            r matches Err(e) ==> Some(e) == old(self).spec_update_metadata_err(caller, token_id)
                && *final(self) == *old(self),
            r is Ok ==> ({
                let m = final(self).nft.metadata@[token_id];
                let m0 = old(self).nft.metadata@[token_id];
                &&& r == Ok::<MetadataUpdateEvent, Error>(MetadataUpdateEvent { token_id })
                &&& final(self).nft.metadata@.dom() == old(self).nft.metadata@.dom()
                &&& forall|h: u128|
                    h != token_id && old(self).nft.metadata@.contains_key(h) ==> final(self).nft.metadata@[h] == old(self).nft.metadata@[h]
                &&& m.state == m0.state
                &&& m.location == (if location is Some {
                    location
                } else {
                    m0.location
                })
                &&& m.temperature == (if temperature is Some {
                    temperature
                } else {
                    m0.temperature
                })
                &&& m.humidity == (if humidity is Some {
                    humidity
                } else {
                    m0.humidity
                })
                &&& m.lab_analysis == (if lab_analysis is Some {
                    lab_analysis
                } else {
                    m0.lab_analysis
                })
                &&& m.processor == m0.processor
                &&& m.distributor == m0.distributor
                &&& m.consumer == m0.consumer
                &&& m.updated_at == now
                &&& m.name == (match opensea_metadata {
                    Some(os) => match os.name {
                        Some(n) => n,
                        None => m0.name,
                    },
                    None => m0.name,
                })
                &&& m.description == (match opensea_metadata {
                    Some(os) => match os.description {
                        Some(d) => d,
                        None => m0.description,
                    },
                    None => m0.description,
                })
                &&& m.image == (match opensea_metadata {
                    Some(os) => match os.image {
                        Some(im) => im,
                        None => m0.image,
                    },
                    None => m0.image,
                })
                &&& m.external_url == (match opensea_metadata {
                    Some(os) => if os.external_url is Some {
                        os.external_url
                    } else {
                        m0.external_url
                    },
                    None => m0.external_url,
                })
                &&& m.attributes@ == (match opensea_metadata {
                    Some(os) => match os.attributes {
                        Some(a) => a@,
                        None => m0.attributes@,
                    },
                    None => m0.attributes@,
                })
                &&& final(self).history == old(self).history
                &&& final(self).tokens == old(self).tokens
                &&& final(self).approvals == old(self).approvals
                &&& final(self).nft.roles == old(self).nft.roles
                &&& final(self).nft.whitelist == old(self).nft.whitelist
                &&& final(self).nft.paused == old(self).nft.paused
                &&& final(self).initialized == old(self).initialized
                &&& final(self).name == old(self).name
                &&& final(self).symbol == old(self).symbol
            }),
    {
        match self.nft.require_not_paused() {
            Ok(_) => {},
            Err(e) => {
                return Err(e);
            },
        }
        match self.nft.require_role(caller, Role::Cultivator) {
            Ok(_) => {},
            Err(e) => {
                return Err(e);
            },
        }
        let new_meta = match self.nft.get_metadata(token_id) {
            Some(cur) => {
                let merged = match opensea_metadata {
                    Some(os) => {
                        let OpenSeaMetadata { name, description, image, external_url, attributes } =
                            os;
                        (
                            match name {
                                Some(n) => n,
                                None => cur.name.clone(),
                            },
                            match description {
                                Some(d) => d,
                                None => cur.description.clone(),
                            },
                            match image {
                                Some(im) => im,
                                None => cur.image.clone(),
                            },
                            match external_url {
                                Some(e) => Some(e),
                                None => clone_opt_string(&cur.external_url),
                            },
                            match attributes {
                                Some(a) => a,
                                None => clone_attributes(&cur.attributes),
                            },
                        )
                    },
                    None => (
                        cur.name.clone(),
                        cur.description.clone(),
                        cur.image.clone(),
                        clone_opt_string(&cur.external_url),
                        clone_attributes(&cur.attributes),
                    ),
                };
                SeedMetadata {
                    state: cur.state,
                    location: match location {
                        Some(l) => Some(l),
                        None => clone_opt_string(&cur.location),
                    },
                    temperature: match temperature {
                        Some(t) => Some(t),
                        None => cur.temperature,
                    },
                    humidity: match humidity {
                        Some(h) => Some(h),
                        None => cur.humidity,
                    },
                    lab_analysis: match lab_analysis {
                        Some(l) => Some(l),
                        None => clone_opt_string(&cur.lab_analysis),
                    },
                    processor: cur.processor,
                    distributor: cur.distributor,
                    consumer: cur.consumer,
                    updated_at: now,
                    name: merged.0,
                    description: merged.1,
                    image: merged.2,
                    external_url: merged.3,
                    attributes: merged.4,
                }
            },
            None => {
                return Err(Error::TokenNotFound);
            },
        };
        self.nft.store_metadata(token_id, new_meta);
        proof {
            assert(self.nft.metadata@.dom() =~= old(self).nft.metadata@.dom());
            SeedNFTContract::lemma_wf_after_meta_update(*old(self), *self, token_id);
        }
        Ok(MetadataUpdateEvent { token_id })
    }

    /// The first check a transfer fails, if any: the pause gate, then the
    /// recipient's whitelist membership, then token existence, then that
    /// `from` owns the token, then that the spender is the owner or holds the
    /// token's approval.
    pub open spec fn spec_transfer_err(
        self,
        spender: u64,
        from: u64,
        to: u64,
        token_id: u128,
    ) -> Option<Error> {
        if self.nft.paused {
            Some(Error::Paused)
        } else if !self.nft.whitelist@.contains(to) {
            Some(Error::NotWhitelisted)
        } else if !self.nft.metadata@.contains_key(token_id) {
            Some(Error::TokenNotFound)
        } else if self.spec_owner_of(token_id) != from {
            Some(Error::Unauthorized)
        } else if spender != from && !(self.approvals@.contains_key(token_id)
            && self.approvals@[token_id] == spender) {
            Some(Error::Unauthorized)
        } else {
            None
        }
    }

    /// A change of owner that keeps every handle in place preserves
    /// well-formedness.
    proof fn lemma_wf_after_transfer(pre: SeedNFTContract, post: SeedNFTContract)
        requires
            pre.wf(),
            post.tokens@.len() == pre.tokens@.len(),
            forall|i: int|
                0 <= i < pre.tokens@.len() ==> #[trigger] post.tokens@[i].0 == pre.tokens@[i].0,
            post.nft.metadata@ == pre.nft.metadata@,
            post.history.entries@ == pre.history.entries@,
        ensures
            post.wf(),
    {
        assert forall|h: u128| post.spec_has_token(h) == pre.spec_has_token(h) by {
            if pre.spec_has_token(h) {
                let i = choose|i: int| 0 <= i < pre.tokens@.len() && pre.tokens@[i].0 == h;
                assert(0 <= i < post.tokens@.len() && post.tokens@[i].0 == h);
            }
            if post.spec_has_token(h) {
                let i = choose|i: int| 0 <= i < post.tokens@.len() && post.tokens@[i].0 == h;
                assert(0 <= i < pre.tokens@.len() && pre.tokens@[i].0 == h);
            }
        }
        assert forall|h: u128| post.spec_history(h) == pre.spec_history(h) by {
            assert(post.history.entries@ == pre.history.entries@);
        }
        assert forall|h: u128| post.nft.metadata@.contains_key(h)
            implies SeedNFTContract::spec_chain_ends_at(
            #[trigger] post.spec_history(h),
            post.spec_stage(h),
        ) by {
            assert(pre.nft.metadata@.contains_key(h));
            assert(post.spec_stage(h) == pre.spec_stage(h));
        }
    }

    /// Moves a token to a whitelisted recipient. The spender must be the
    /// owner or hold the token's approval; a successful transfer clears the
    /// approval.
    pub fn transfer_from(&mut self, spender: u64, from: u64, to: u64, token_id: u128) -> (r: Result<
        (),
        Error,
    >)
        requires
            old(self).wf(),
        ensures
            final(self).wf(),
            r is Err <==> old(self).spec_transfer_err(spender, from, to, token_id) is Some,
            r matches Err(e) ==> Some(e) == old(self).spec_transfer_err(spender, from, to, token_id)
                && *final(self) == *old(self),
            r is Ok ==> final(self).tokens@ == old(self).tokens@.update(
                old(self).spec_token_ix(token_id),
                (token_id, to),
            ) && final(self).spec_owner_of(token_id) == to && final(self).approvals@ == old(self).approvals@.remove(token_id) && final(self).nft == old(self).nft && final(self).history
                == old(self).history && final(self).initialized == old(self).initialized && final(self).name == old(self).name && final(self).symbol == old(self).symbol,
    {
        match self.nft.require_not_paused() {
            Ok(_) => {},
            Err(e) => {
                return Err(e);
            },
        }
        if !self.nft.is_whitelisted(to) {
            return Err(Error::NotWhitelisted);
        }
        let ix = match self.token_index(token_id) {
            Some(i) => i,
            None => {
                proof {
                    assert(!old(self).nft.metadata@.contains_key(token_id));
                }
                return Err(Error::TokenNotFound);
            },
        };
        proof {
            let j = self.spec_token_ix(token_id);
            assert(0 <= j < self.tokens@.len() && self.tokens@[j].0 == token_id);
            assert(j == ix as int);
            assert(self.nft.metadata@.contains_key(token_id));
        }
        if self.tokens[ix].1 != from {
            return Err(Error::Unauthorized);
        }
        if spender != from {
            let approved = match self.approvals.get(&token_id) {
                Some(a) => *a == spender,
                None => false,
            };
            if !approved {
                return Err(Error::Unauthorized);
            }
        }
        let ghost pre = *self;
        self.tokens.set(ix, (token_id, to));
        self.approvals.remove(&token_id);
        proof {
            SeedNFTContract::lemma_wf_after_transfer(pre, *self);
            let j = self.spec_token_ix(token_id);
            assert(0 <= j < self.tokens@.len() && self.tokens@[j].0 == token_id);
            assert(j == ix as int);
        }
        Ok(())
    }

    /// The first check an approval fails, if any: the pause gate, then token
    /// existence, then that the approver owns the token.
    pub open spec fn spec_approve_err(self, approver: u64, token_id: u128) -> Option<Error> {
        if self.nft.paused {
            Some(Error::Paused)
        } else if !self.nft.metadata@.contains_key(token_id) {
            Some(Error::TokenNotFound)
        } else if self.spec_owner_of(token_id) != approver {
            Some(Error::Unauthorized)
        } else {
            None
        }
    }

    /// Lets the token's owner name one identity allowed to transfer it.
    pub fn approve(&mut self, approver: u64, approved: u64, token_id: u128) -> (r: Result<
        (),
        Error,
    >)
        requires
            old(self).wf(),
        ensures
            final(self).wf(),
            r is Err <==> old(self).spec_approve_err(approver, token_id) is Some,
            r matches Err(e) ==> Some(e) == old(self).spec_approve_err(approver, token_id) && *final(self) == *old(self),
            r is Ok ==> final(self).approvals@ == old(self).approvals@.insert(token_id, approved)
                && final(self).nft == old(self).nft && final(self).history == old(self).history
                && final(self).tokens == old(self).tokens && final(self).initialized == old(self).initialized && final(self).name == old(self).name && final(self).symbol == old(self).symbol,
    {
        match self.nft.require_not_paused() {
            Ok(_) => {},
            Err(e) => {
                return Err(e);
            },
        }
        let ix = match self.token_index(token_id) {
            Some(i) => i,
            None => {
                proof {
                    assert(!old(self).nft.metadata@.contains_key(token_id));
                }
                return Err(Error::TokenNotFound);
            },
        };
        proof {
            let j = self.spec_token_ix(token_id);
            assert(0 <= j < self.tokens@.len() && self.tokens@[j].0 == token_id);
            assert(j == ix as int);
            assert(self.nft.metadata@.contains_key(token_id));
        }
        if self.tokens[ix].1 != approver {
            return Err(Error::Unauthorized);
        }
        self.approvals.insert(token_id, approved);
        proof {
            SeedNFTContract::lemma_wf_frame(*old(self), *self);
        }
        Ok(())
    }
}


/// Law: once the pause flag is set, every state-changing operation on the
/// asset — transition, metadata update, transfer, approval — fails with
/// `Paused` before anything else is examined, and so touches no state.
pub proof fn lemma_pause_gate(
    c: SeedNFTContract,
    caller: u64,
    spender: u64,
    from: u64,
    to: u64,
    token_id: u128,
    new_state: u32,
)
    requires
        c.nft.paused,
    ensures
        c.spec_update_state_err(caller, token_id, new_state) == Some(Error::Paused),
        c.spec_update_metadata_err(caller, token_id) == Some(Error::Paused),
        c.spec_transfer_err(spender, from, to, token_id) == Some(Error::Paused),
        c.spec_approve_err(caller, token_id) == Some(Error::Paused),
{
}

/// Law: `Consumed` is terminal. On an unpaused contract, a transition request
/// for an asset at `Consumed` always fails, and fails with
/// `InvalidStateTransition` whenever the caller holds the role the target
/// stage requires (lacking the role, the request fails as `Unauthorized`
/// first).
pub proof fn lemma_consumed_rejects_all(
    c: SeedNFTContract,
    caller: u64,
    token_id: u128,
    new_state: u32,
)
    requires
        !c.nft.paused,
        c.nft.metadata@.contains_key(token_id),
        c.spec_stage(token_id) == LifecycleState::Consumed,
    ensures
        c.spec_update_state_err(caller, token_id, new_state) is Some,
        c.spec_update_state_err(caller, token_id, new_state) == Some(Error::Unauthorized)
            || c.spec_update_state_err(caller, token_id, new_state) == Some(
            Error::InvalidStateTransition,
        ),
        (match LifecycleState::spec_from_u32(new_state) {
            Some(st) => match LifecycleState::spec_required_role(st) {
                Some(role) => spec_has_role(c.nft.roles@, caller, role),
                None => true,
            },
            None => true,
        }) ==> c.spec_update_state_err(caller, token_id, new_state) == Some(
            Error::InvalidStateTransition,
        ),
{
}

/// Law: under well-formedness the ledger and the history log agree. The
/// history of a minted asset is a chain of single-successor transitions that
/// starts at `Seed` and ends at the asset's current stage — in particular,
/// after any successful transition the newest record's target stage equals
/// the stage the ledger reports, and every stage the asset ever held is
/// reachable from `Seed` along the fixed chain.
pub proof fn lemma_ledger_history_consistent(c: SeedNFTContract, token_id: u128)
    requires
        c.wf(),
        c.nft.metadata@.contains_key(token_id),
    ensures
        SeedNFTContract::spec_chain_ends_at(c.spec_history(token_id), c.spec_stage(token_id)),
        c.spec_history(token_id).len() > 0 ==> c.spec_history(token_id).last().to_state
            == c.spec_stage(token_id),
        LifecycleState::Seed.spec_reachable(c.spec_stage(token_id)),
{
    crate::lifecycle::lemma_seed_reaches_all(c.spec_stage(token_id));
}

} // verus!
