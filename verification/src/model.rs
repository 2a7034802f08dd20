//! Data model: account identities, contributor records, the `Music` work
//! registry, and the error surface shared by the registry and the
//! distributor.

use vstd::prelude::*;

verus! {

/// A ledger account address: 256 bits held as four 64-bit words.
///
/// The registry only ever compares identities for equality, so the address
/// is a plain value with structural equality.
#[derive(Clone, Copy, PartialEq, Eq, Structural, Debug)]
pub struct AccountId {
    pub w0: u64,
    pub w1: u64,
    pub w2: u64,
    pub w3: u64,
}

/// One registered contributor: an identity, a free-form role label with no
/// effect on distribution, and a proportional weight.
#[derive(Clone, Debug)]
pub struct ContributorInfo {
    pub contributor: AccountId,
    pub contributor_type: String,
    pub contribution_weight: u16,
}

/// The registry for one creative work: its owner, an opaque identifier, the
/// append-only contributor list, the running weight total, and the creation
/// gate.
#[derive(Clone, Debug)]
pub struct Music {
    pub authority: AccountId,
    pub music_id: String,
    pub contributors: Vec<ContributorInfo>,
    pub total_weight: u16,
    pub initialized: bool,
}

/// Every failure the registry or the distributor can surface.
#[derive(Clone, Copy, PartialEq, Eq, Structural, Debug)]
pub enum ErrorCode {
    /// Creation requested on a work that is already initialized.
    AlreadyInitialized,
    /// The identity being added is already in the registry.
    DuplicateContributor,
    /// Weight accumulation would exceed the weight type's range.
    Overflow,
    /// A share-arithmetic step would exceed representable range.
    MathOverflow,
    /// Distribution attempted before the work was created.
    NotInitialized,
    /// The registry is empty or its total weight is zero.
    NoContributors,
    /// Contributor count and supplied destinations do not match.
    InvalidContributors,
}

/// The weights of a contributor sequence, in order.
pub open spec fn weights_of(s: Seq<ContributorInfo>) -> Seq<u16> {
    s.map_values(|c: ContributorInfo| c.contribution_weight)
}

/// Sum of the first `k` weights of `ws`.
pub open spec fn weight_prefix_sum(ws: Seq<u16>, k: int) -> int
    decreases k,
{
    if k <= 0 {
        0
    } else {
        weight_prefix_sum(ws, k - 1) + ws[k - 1]
    }
}

/// Sum of all weights of a contributor sequence.
pub open spec fn total_of(s: Seq<ContributorInfo>) -> int {
    weight_prefix_sum(weights_of(s), s.len() as int)
}

/// Whether `id` occurs among the contributors of `s`.
pub open spec fn contains_identity(s: Seq<ContributorInfo>, id: AccountId) -> bool {
    exists|i: int| 0 <= i < s.len() && s[i].contributor == id
}

/// Pairwise-distinct contributor identities.
pub open spec fn identities_unique(s: Seq<ContributorInfo>) -> bool {
    forall|i: int, j: int|
        0 <= i < j < s.len() ==> s[i].contributor != s[j].contributor
}

impl Music {
    /// The registry invariant: the stored total is the sum of the
    /// contributors' weights, and identities are pairwise distinct.
    pub open spec fn wf(self) -> bool {
        &&& self.total_weight as int == total_of(self.contributors@)
        &&& identities_unique(self.contributors@)
    }
}

/// A prefix sum of weights only reads the elements below `k`, so two
/// sequences that agree there have the same sum.
pub proof fn lemma_weight_prefix_sum_agree(ws1: Seq<u16>, ws2: Seq<u16>, k: int)
    requires
        k <= ws1.len(),
        k <= ws2.len(),
        forall|i: int| 0 <= i < k ==> ws1[i] == ws2[i],
    ensures
        weight_prefix_sum(ws1, k) == weight_prefix_sum(ws2, k),
    decreases k,
{
    if k > 0 {
        lemma_weight_prefix_sum_agree(ws1, ws2, k - 1);
    }
}

/// A prefix sum of weights is never negative.
pub proof fn lemma_weight_prefix_sum_nonneg(ws: Seq<u16>, k: int)
    requires
        k <= ws.len(),
    ensures
        weight_prefix_sum(ws, k) >= 0,
    decreases k,
{
    if k > 0 {
        lemma_weight_prefix_sum_nonneg(ws, k - 1);
    }
}

/// Prefix sums of weights never decrease.
pub proof fn lemma_weight_prefix_sum_mono(ws: Seq<u16>, k: int, m: int)
    requires
        0 <= k <= m <= ws.len(),
    ensures
        weight_prefix_sum(ws, k) <= weight_prefix_sum(ws, m),
    decreases m,
{
    if m > k {
        lemma_weight_prefix_sum_mono(ws, k, m - 1);
    }
}

/// Appending a contributor adds exactly its weight to the registry total.
pub proof fn lemma_total_push(s: Seq<ContributorInfo>, c: ContributorInfo)
    ensures
        total_of(s.push(c)) == total_of(s) + c.contribution_weight,
{
    let ws = weights_of(s);
    let ws2 = weights_of(s.push(c));
    assert(ws2 =~= ws.push(c.contribution_weight));
    lemma_weight_prefix_sum_agree(ws2, ws, s.len() as int);
    assert(weight_prefix_sum(ws2, s.len() as int + 1)
        == weight_prefix_sum(ws2, s.len() as int) + c.contribution_weight);
}

} // verus!
