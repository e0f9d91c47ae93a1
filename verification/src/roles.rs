//! Flat role flags: a small fixed set of independent permissions an identity
//! may hold. Holding one role never implies holding another.

use vstd::prelude::*;

verus! {

/// The fixed set of roles. `Consumer` is reserved and required by no
/// transition.
#[derive(Clone, Copy, Debug, PartialEq, Eq, Structural)]
pub enum Role {
    Admin,
    Cultivator,
    Processor,
    Dispensary,
    Consumer,
}

/// The set of roles one identity holds, as independent flags.
#[derive(Clone, Copy, Debug, PartialEq, Eq, Structural)]
pub struct RoleFlags {
    pub admin: bool,
    pub cultivator: bool,
    pub processor: bool,
    pub dispensary: bool,
    pub consumer: bool,
}

impl RoleFlags {
    /// The flag set of an identity that holds no role.
    pub open spec fn spec_empty() -> RoleFlags {
        RoleFlags {
            admin: false,
            cultivator: false,
            processor: false,
            dispensary: false,
            consumer: false,
        }
    }

    pub fn empty() -> (r: RoleFlags)
        ensures
            r == RoleFlags::spec_empty(),
    {
        RoleFlags {
            admin: false,
            cultivator: false,
            processor: false,
            dispensary: false,
            consumer: false,
        }
    }

    pub open spec fn spec_holds(self, role: Role) -> bool {
        match role {
            Role::Admin => self.admin,
            Role::Cultivator => self.cultivator,
            Role::Processor => self.processor,
            Role::Dispensary => self.dispensary,
            Role::Consumer => self.consumer,
        }
    }

    pub fn holds(self, role: Role) -> (r: bool)
        ensures
            r == self.spec_holds(role),
    {
        match role {
            Role::Admin => self.admin,
            Role::Cultivator => self.cultivator,
            Role::Processor => self.processor,
            Role::Dispensary => self.dispensary,
            Role::Consumer => self.consumer,
        }
    }

    /// The same flags with one role set to `held`.
    pub open spec fn spec_with(self, role: Role, held: bool) -> RoleFlags {
        match role {
            Role::Admin => RoleFlags { admin: held, ..self },
            Role::Cultivator => RoleFlags { cultivator: held, ..self },
            Role::Processor => RoleFlags { processor: held, ..self },
            Role::Dispensary => RoleFlags { dispensary: held, ..self },
            Role::Consumer => RoleFlags { consumer: held, ..self },
        }
    }

    pub fn with_role(self, role: Role, held: bool) -> (r: RoleFlags)
        ensures
            r == self.spec_with(role, held),
    {
        match role {
            Role::Admin => RoleFlags { admin: held, ..self },
            Role::Cultivator => RoleFlags { cultivator: held, ..self },
            Role::Processor => RoleFlags { processor: held, ..self },
            Role::Dispensary => RoleFlags { dispensary: held, ..self },
            Role::Consumer => RoleFlags { consumer: held, ..self },
        }
    }
}

/// Membership query over a role store: unknown identities hold no role.
pub open spec fn spec_has_role(roles: Map<u64, RoleFlags>, account: u64, role: Role) -> bool {
    roles.contains_key(account) && roles[account].spec_holds(role)
}

/// The role store after granting `role` to `account`.
pub open spec fn spec_grant(roles: Map<u64, RoleFlags>, account: u64, role: Role) -> Map<
    u64,
    RoleFlags,
> {
    let f = if roles.contains_key(account) {
        roles[account]
    } else {
        RoleFlags::spec_empty()
    };
    roles.insert(account, f.spec_with(role, true))
}

/// The role store after revoking `role` from `account`. Revoking from an
/// unknown identity changes nothing.
pub open spec fn spec_revoke(roles: Map<u64, RoleFlags>, account: u64, role: Role) -> Map<
    u64,
    RoleFlags,
> {
    if roles.contains_key(account) {
        roles.insert(account, roles[account].spec_with(role, false))
    } else {
        roles
    }
}

/// Law: granting a role twice has the same effect on the role store as
/// granting it once.
pub proof fn lemma_grant_idempotent(roles: Map<u64, RoleFlags>, account: u64, role: Role)
    ensures
        spec_grant(spec_grant(roles, account, role), account, role) == spec_grant(
            roles,
            account,
            role,
        ),
{
    let once = spec_grant(roles, account, role);
    let twice = spec_grant(once, account, role);
    assert(once[account].spec_with(role, true) == once[account]);
    assert(twice =~= once);
}

/// Law: revoking a role twice has the same effect on the role store as
/// revoking it once.
pub proof fn lemma_revoke_idempotent(roles: Map<u64, RoleFlags>, account: u64, role: Role)
    ensures
        spec_revoke(spec_revoke(roles, account, role), account, role) == spec_revoke(
            roles,
            account,
            role,
        ),
{
    let once = spec_revoke(roles, account, role);
    let twice = spec_revoke(once, account, role);
    if roles.contains_key(account) {
        assert(once[account].spec_with(role, false) == once[account]);
        assert(twice =~= once);
    }
}

/// Law: a grant makes exactly the granted pair held, and disturbs no other
/// (identity, role) pair.
pub proof fn lemma_grant_effect(
    roles: Map<u64, RoleFlags>,
    account: u64,
    role: Role,
    a2: u64,
    r2: Role,
)
    ensures
        spec_has_role(spec_grant(roles, account, role), a2, r2) == (spec_has_role(roles, a2, r2)
            || (a2 == account && r2 == role)),
{
}

/// Law: a revoke clears exactly the revoked pair, and disturbs no other
/// (identity, role) pair.
pub proof fn lemma_revoke_effect(
    roles: Map<u64, RoleFlags>,
    account: u64,
    role: Role,
    a2: u64,
    r2: Role,
)
    ensures
        spec_has_role(spec_revoke(roles, account, role), a2, r2) == (spec_has_role(roles, a2, r2)
            && !(a2 == account && r2 == role)),
{
}

} // verus!
