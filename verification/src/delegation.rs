//! The per-user delegation registry.
//!
//! One [`DelegatedAuthority`] record per user, living at the storage address
//! derived from the user's identity; the registry therefore never holds two
//! records for the same user, and re-delegation overwrites in place. A record
//! is created or refreshed by [`delegate_authority`] (which snapshots the
//! executor currently named by the configuration) and deactivated — never
//! deleted — by [`revoke_authority`].

use vstd::prelude::*;
use crate::config::PlatformConfig;
use crate::errors::ErrorCode;
use crate::identity::{Identity, DELEGATION_DERIVATION_TAG};
use crate::token::TokenInstruction;

verus! {

/// A user's delegation record.
#[derive(Clone, Copy, PartialEq, Eq, Structural, Debug)]
pub struct DelegatedAuthority {
    /// The identity that owns the record and alone may revoke it.
    pub user: Identity,
    /// Whether the delegation currently admits swaps.
    pub is_active: bool,
    /// The executor identity snapshotted at delegation time. A copy, not a
    /// live reference: if the configuration's executor later changes, this
    /// snapshot goes stale until the user re-delegates.
    pub allowed_swap_authority: Identity,
    /// The derivation salt under which the record is stored.
    pub derivation_tag: u8,
}

/// The record that a delegation under configuration `config` writes for
/// `user`: active, with the executor snapshotted from `config` at that
/// instant.
pub open spec fn spec_delegated_record(config: PlatformConfig, user: Identity) -> DelegatedAuthority {
    DelegatedAuthority {
        user,
        is_active: true,
        allowed_swap_authority: config.swap_executor_authority,
        derivation_tag: DELEGATION_DERIVATION_TAG,
    }
}

/// The host's storage for delegation records: at most one record per user.
pub struct DelegationRegistry {
    pub records: Vec<DelegatedAuthority>,
}

/// The accounts of a `delegate_authority` call: the delegating user (whose
/// signature the host has verified) and the token account the approval is to
/// cover.
pub struct DelegateAuthorityAccounts {
    pub user: Identity,
    pub user_token_account: Identity,
}

/// The accounts of a `revoke_authority` call: the signing user (the target
/// record is the one stored under this identity) and the token account whose
/// approval is to be revoked.
pub struct RevokeAuthorityAccounts {
    pub user: Identity,
    pub user_token_account: Identity,
}

impl DelegationRegistry {
    /// Well-formedness: no two records share an owner, mirroring the fact that
    /// a record's storage address is a pure function of its owner.
    pub open spec fn wf(self) -> bool {
        forall|i: int, j: int|
            0 <= i < j < self.records@.len() ==> self.records@[i].user != self.records@[j].user
    }

    /// Whether some record is stored for `user`.
    pub open spec fn contains_user(self, user: Identity) -> bool {
        exists|i: int| 0 <= i < self.records@.len() && self.records@[i].user == user
    }

    /// The record stored for `user`.
    pub open spec fn record_of(self, user: Identity) -> DelegatedAuthority
        recommends
            self.contains_user(user),
    {
        self.records@[choose|i: int|
            0 <= i < self.records@.len() && self.records@[i].user == user]
    }

    /// An empty registry, as a deployment starts.
    pub fn new() -> (r: Self)
        ensures
            r.wf(),
            forall|u: Identity| !r.contains_user(u),
    {
        DelegationRegistry { records: Vec::new() }
    }

    /// Looks up the position of the record stored for `user`.
    fn position_of(&self, user: Identity) -> (r: Option<usize>)
        ensures
            match r {
                Some(i) => i < self.records@.len() && self.records@[i as int].user == user,
                None => !self.contains_user(user),
            },
    {
        let mut i: usize = 0;
        while i < self.records.len()
            invariant
                i <= self.records@.len(),
                forall|k: int| 0 <= k < i ==> self.records@[k].user != user,
            decreases self.records@.len() - i,
        {
            if self.records[i].user == user {
                return Some(i);
            }
            i += 1;
        }
        None
    }

    /// Looks up the record stored for `user`, as the host does when it loads
    /// the account at the address derived from `user`.
    pub fn find(&self, user: Identity) -> (r: Option<DelegatedAuthority>)
        requires
            self.wf(),
        ensures
            match r {
                Some(rec) => self.contains_user(user) && rec == self.record_of(user),
                None => !self.contains_user(user),
            },
    {
        match self.position_of(user) {
            Some(i) => {
                let rec = self.records[i];
                proof {
                    lemma_record_at_index(*self, i as int, user);
                }
                Some(rec)
            },
            None => None,
        }
    }
}

/// In a well-formed registry, any index whose record is owned by `user` is
/// the index of `user`'s one record.
pub proof fn lemma_record_at_index(reg: DelegationRegistry, i: int, user: Identity)
    requires
        reg.wf(),
        0 <= i < reg.records@.len(),
        reg.records@[i].user == user,
    ensures
        reg.contains_user(user),
        reg.record_of(user) == reg.records@[i],
{
    assert(reg.contains_user(user));
    let j = choose|j: int| 0 <= j < reg.records@.len() && reg.records@[j].user == user;
    if i < j {
        assert(reg.records@[i].user != reg.records@[j].user);
    } else if j < i {
        assert(reg.records@[j].user != reg.records@[i].user);
    }
}

/// Frame lemma: an operation that rewrites only records owned by `touched`,
/// and appends only records owned by `touched`, preserves every other user's
/// membership and record.
proof fn lemma_registry_frame(
    pre: DelegationRegistry,
    post: DelegationRegistry,
    touched: Identity,
)
    requires
        pre.wf(),
        post.wf(),
        post.records@.len() >= pre.records@.len(),
        forall|k: int| 0 <= k < pre.records@.len() ==> post.records@[k] == pre.records@[k]
            || post.records@[k].user == touched,
        forall|k: int|
            pre.records@.len() <= k < post.records@.len() ==> post.records@[k].user == touched,
        forall|k: int| 0 <= k < pre.records@.len() ==> (pre.records@[k].user == touched
            <==> post.records@[k].user == touched),
    ensures
        forall|u: Identity|
            u != touched ==> (post.contains_user(u) <==> pre.contains_user(u)),
        forall|u: Identity|
            u != touched && pre.contains_user(u) ==> post.record_of(u) == pre.record_of(u),
{
    assert forall|u: Identity| u != touched && pre.contains_user(u) implies post.contains_user(u)
        && post.record_of(u) == pre.record_of(u) by {
        let k = choose|k: int|
            0 <= k < pre.records@.len() && pre.records@[k].user == u;
        lemma_record_at_index(pre, k, u);
        lemma_record_at_index(post, k, u);
    }
    assert forall|u: Identity| u != touched && post.contains_user(u) implies pre.contains_user(
        u,
    ) by {
        let k = choose|k: int|
            0 <= k < post.records@.len() && post.records@[k].user == u;
        lemma_record_at_index(pre, k, u);
    }
}

/// Creates or refreshes the delegation record of `ctx.user`.
///
/// The record ends up active, with the executor snapshotted from `config` at
/// this instant, whatever state (absent, active, or revoked) it was in before;
/// no other user's record is touched. Returns the approval call the host must
/// issue to the token subsystem: `amount` spending rights over the user's
/// token account, granted to the current executor (`u64::MAX` makes the
/// standing approval effectively unlimited).
pub fn delegate_authority(
    registry: &mut DelegationRegistry,
    config: &PlatformConfig,
    ctx: DelegateAuthorityAccounts,
    amount: u64,
) -> (r: TokenInstruction)
    requires
        old(registry).wf(),
    ensures
        final(registry).wf(),
        final(registry).contains_user(ctx.user),
        final(registry).record_of(ctx.user) == spec_delegated_record(*config, ctx.user),
        forall|u: Identity| u != ctx.user
            ==> (final(registry).contains_user(u) <==> old(registry).contains_user(u)),
        forall|u: Identity| u != ctx.user && old(registry).contains_user(u)
            ==> final(registry).record_of(u) == old(registry).record_of(u),
        r == (TokenInstruction::Approve {
            token_account: ctx.user_token_account,
            delegate: config.swap_executor_authority,
            owner: ctx.user,
            amount,
        }),
{
    let record = DelegatedAuthority {
        user: ctx.user,
        is_active: true,
        allowed_swap_authority: config.swap_executor_authority,
        derivation_tag: DELEGATION_DERIVATION_TAG,
    };
    match registry.position_of(ctx.user) {
        Some(i) => {
            registry.records[i] = record;
            proof {
                let pre = *old(registry);
                let post = *registry;
                assert(forall|k: int|
                    0 <= k < post.records@.len() ==> post.records@[k].user
                        == pre.records@[k].user);
                assert(post.wf());
                lemma_record_at_index(post, i as int, ctx.user);
                lemma_registry_frame(pre, post, ctx.user);
            }
        },
        None => {
            registry.records.push(record);
            proof {
                let pre = *old(registry);
                let post = *registry;
                assert forall|k: int, l: int|
                    0 <= k < l < post.records@.len() implies post.records@[k].user
                    != post.records@[l].user by {
                    if l < pre.records@.len() {
                        assert(pre.wf());
                    } else {
                        assert(post.records@[l] == record);
                        assert(!pre.contains_user(ctx.user));
                    }
                }
                lemma_record_at_index(post, pre.records@.len() as int, ctx.user);
                lemma_registry_frame(pre, post, ctx.user);
            }
        },
    }
    TokenInstruction::Approve {
        token_account: ctx.user_token_account,
        delegate: config.swap_executor_authority,
        owner: ctx.user,
        amount,
    }
}

/// Deactivates the delegation record stored under `ctx.user`.
///
/// The signer must be the user recorded on the target record; any other owner
/// on the record fails `Unauthorized` and mutates nothing. On success the
/// record keeps its owner, snapshot and salt, only `is_active` drops to
/// false, and the host is handed the call that fully revokes the outstanding
/// token approval.
pub fn revoke_authority(
    registry: &mut DelegationRegistry,
    ctx: RevokeAuthorityAccounts,
) -> (r: Result<TokenInstruction, ErrorCode>)
    requires
        old(registry).wf(),
        old(registry).contains_user(ctx.user),
    ensures
        final(registry).wf(),
        r is Ok <==> old(registry).record_of(ctx.user).user == ctx.user,
        r is Err ==> r == Err::<TokenInstruction, ErrorCode>(ErrorCode::Unauthorized)
            && *final(registry) == *old(registry),
        r is Ok ==> {
            &&& final(registry).contains_user(ctx.user)
            &&& final(registry).record_of(ctx.user) == (DelegatedAuthority {
                user: old(registry).record_of(ctx.user).user,
                is_active: false,
                allowed_swap_authority: old(registry).record_of(ctx.user).allowed_swap_authority,
                derivation_tag: old(registry).record_of(ctx.user).derivation_tag,
            })
            &&& forall|u: Identity| u != ctx.user
                ==> (final(registry).contains_user(u) <==> old(registry).contains_user(u))
            &&& forall|u: Identity| u != ctx.user && old(registry).contains_user(u)
                ==> final(registry).record_of(u) == old(registry).record_of(u)
            &&& r == Ok::<TokenInstruction, ErrorCode>(TokenInstruction::Revoke {
                token_account: ctx.user_token_account,
                owner: ctx.user,
            })
        },
{
    let position = registry.position_of(ctx.user);
    assert(position is Some);
    let i = position.unwrap();
    proof {
        lemma_record_at_index(*registry, i as int, ctx.user);
    }
    let rec = registry.records[i];
    if rec.user != ctx.user {
        return Err(ErrorCode::Unauthorized);
    }
    registry.records[i] = DelegatedAuthority {
        user: rec.user,
        is_active: false,
        allowed_swap_authority: rec.allowed_swap_authority,
        derivation_tag: rec.derivation_tag,
    };
    proof {
        let pre = *old(registry);
        let post = *registry;
        assert(forall|k: int|
            0 <= k < post.records@.len() ==> post.records@[k].user == pre.records@[k].user);
        assert(post.wf());
        lemma_record_at_index(post, i as int, ctx.user);
        lemma_registry_frame(pre, post, ctx.user);
    }
    Ok(TokenInstruction::Revoke { token_account: ctx.user_token_account, owner: ctx.user })
}

} // verus!
