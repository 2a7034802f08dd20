//! Registry operations: creating a work and appending contributors, with the
//! duplicate-identity and weight-overflow guards.

use vstd::prelude::*;

use crate::model::AccountId;
use crate::model::ContributorInfo;
use crate::model::ErrorCode;
use crate::model::Music;
use crate::model::contains_identity;
use crate::model::identities_unique;
use crate::model::lemma_total_push;
use crate::model::total_of;

verus! {

/// The inputs of a creation call: the work's storage slot and the identity
/// that will own it.
pub struct InitializeMusic {
    pub music: Music,
    pub authority: AccountId,
}

/// The inputs of a contributor-addition call: the work's storage slot, the
/// identity being registered, and the caller's identity.
pub struct AddContribution {
    pub music: Music,
    pub contributor: AccountId,
    pub authority: AccountId,
}

/// Creates the work: empty contributor list, zero total weight, the creation
/// gate set. Fails with `AlreadyInitialized`, changing nothing, when the
/// work already exists.
pub fn initialize_music(ctx: &mut InitializeMusic, music_id: String) -> (r: Result<(), ErrorCode>)
    ensures
        old(ctx).music.initialized ==> r == Err::<(), ErrorCode>(ErrorCode::AlreadyInitialized)
            && *final(ctx) == *old(ctx),
        !old(ctx).music.initialized ==> {
            &&& r == Ok::<(), ErrorCode>(())
            &&& final(ctx).music.authority == old(ctx).authority
            &&& final(ctx).music.music_id == music_id
            &&& final(ctx).music.contributors@ == Seq::<ContributorInfo>::empty()
            &&& final(ctx).music.total_weight == 0
            &&& final(ctx).music.initialized
            &&& final(ctx).music.wf()
            &&& final(ctx).authority == old(ctx).authority
        },
{
    if ctx.music.initialized {
        return Err(ErrorCode::AlreadyInitialized);
    }
    ctx.music.authority = ctx.authority;
    ctx.music.music_id = music_id;
    ctx.music.contributors = Vec::new();
    ctx.music.total_weight = 0;
    ctx.music.initialized = true;
    proof {
        assert(ctx.music.contributors@ =~= Seq::<ContributorInfo>::empty());
    }
    Ok(())
}

/// Appends one contributor to an initialized work.
///
/// An identity already in the registry fails with `DuplicateContributor`; a
/// weight total that would leave the weight type's range fails with
/// `Overflow`. Either failure leaves the registry unchanged: the append and
/// the total update happen as one atomic step or not at all.
pub fn add_contribution(
    ctx: &mut AddContribution,
    contributor_type: String,
    contribution_weight: u16,
) -> (r: Result<(), ErrorCode>)
    requires
        old(ctx).music.initialized,
    ensures
        contains_identity(old(ctx).music.contributors@, old(ctx).contributor)
            ==> r == Err::<(), ErrorCode>(ErrorCode::DuplicateContributor)
                && *final(ctx) == *old(ctx),
        !contains_identity(old(ctx).music.contributors@, old(ctx).contributor)
            && old(ctx).music.total_weight + contribution_weight > u16::MAX
            ==> r == Err::<(), ErrorCode>(ErrorCode::Overflow) && *final(ctx) == *old(ctx),
        !contains_identity(old(ctx).music.contributors@, old(ctx).contributor)
            && old(ctx).music.total_weight + contribution_weight <= u16::MAX
            ==> {
                &&& r == Ok::<(), ErrorCode>(())
                &&& final(ctx).music.contributors@ == old(ctx).music.contributors@.push(
                    ContributorInfo {
                        contributor: old(ctx).contributor,
                        contributor_type: contributor_type,
                        contribution_weight: contribution_weight,
                    },
                )
                &&& final(ctx).music.total_weight
                    == old(ctx).music.total_weight + contribution_weight
                &&& final(ctx).music.authority == old(ctx).music.authority
                &&& final(ctx).music.music_id == old(ctx).music.music_id
                &&& final(ctx).music.initialized == old(ctx).music.initialized
                &&& final(ctx).contributor == old(ctx).contributor
                &&& final(ctx).authority == old(ctx).authority
            },
        old(ctx).music.wf() ==> final(ctx).music.wf(),
{
    let n = ctx.music.contributors.len();
    let mut i: usize = 0;
    while i < n
        invariant
            i <= n,
            n == ctx.music.contributors@.len(),
            forall|j: int| 0 <= j < i ==> ctx.music.contributors@[j].contributor
                != ctx.contributor,
        decreases n - i,
    {
        if ctx.music.contributors[i].contributor == ctx.contributor {
            return Err(ErrorCode::DuplicateContributor);
        }
        i += 1;
    }
    if ctx.music.total_weight > u16::MAX - contribution_weight {
        return Err(ErrorCode::Overflow);
    }
    let entry = ContributorInfo {
        contributor: ctx.contributor,
        contributor_type: contributor_type,
        contribution_weight: contribution_weight,
    };
    let ghost before = ctx.music.contributors@;
    ctx.music.contributors.push(entry);
    ctx.music.total_weight = ctx.music.total_weight + contribution_weight;
    proof {
        lemma_total_push(before, entry);
        if identities_unique(before) {
            assert forall|a: int, b: int|
                0 <= a < b < ctx.music.contributors@.len() implies ctx.music.contributors@[a]
                .contributor != ctx.music.contributors@[b].contributor by {
                if b < before.len() {
                } else {
                    assert(ctx.music.contributors@[a] == before[a]);
                }
            }
        }
    }
    Ok(())
}

} // verus!
