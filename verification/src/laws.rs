//! General properties of the parameter store, stated over the abstract
//! state and the spec functions that the operations' contracts use.

use vstd::map::*;
use vstd::prelude::*;

use crate::store::initial_state;
use crate::store::is_authorized;
use crate::store::spec_get_collateral;
use crate::store::spec_get_synthetic;
use crate::store::spec_is_effective_collateral;
use crate::store::spec_is_effective_synthetic;
use crate::store::spec_remove_collateral;
use crate::store::spec_remove_synthetic;
use crate::store::spec_set_collateral;
use crate::store::spec_set_synthetic;
use crate::store::spec_transfer_ownership;
use crate::store::ParamState;

verus! {

/// A principal that was never set reads as zero and is not effective: in
/// a freshly constructed store, every principal's collateral ratio and
/// synthetic status are 0 and neither mapping has an entry for it.
pub proof fn lemma_fresh_store_reads_zero(owner: u128, p: u128)
    ensures
        spec_get_collateral(initial_state(owner), p) == 0,
        !spec_is_effective_collateral(initial_state(owner), p),
        spec_get_synthetic(initial_state(owner), p) == 0,
        !spec_is_effective_synthetic(initial_state(owner), p),
{
}

/// A principal absent from the collateral mapping stays absent — and so
/// keeps reading as zero — under a set of a different key and under a
/// remove of any key.
pub proof fn lemma_collateral_absence_preserved(s: ParamState, p: u128, q: u128, ratio: u32)
    requires
        !spec_is_effective_collateral(s, p),
        q != p,
    ensures
        !spec_is_effective_collateral(spec_set_collateral(s, q, ratio), p),
        spec_get_collateral(spec_set_collateral(s, q, ratio), p) == 0,
        !spec_is_effective_collateral(spec_remove_collateral(s, q), p),
        spec_get_collateral(spec_remove_collateral(s, q), p) == 0,
{
}

/// A principal absent from the synthetic mapping stays absent under a set
/// of a different key and under a remove of any key.
pub proof fn lemma_synthetic_absence_preserved(s: ParamState, p: u128, q: u128, status: u8)
    requires
        !spec_is_effective_synthetic(s, p),
        q != p,
    ensures
        !spec_is_effective_synthetic(spec_set_synthetic(s, q, status), p),
        spec_get_synthetic(spec_set_synthetic(s, q, status), p) == 0,
        !spec_is_effective_synthetic(spec_remove_synthetic(s, q), p),
        spec_get_synthetic(spec_remove_synthetic(s, q), p) == 0,
{
}

/// After a successful set of `p`, reading `p` yields exactly the value
/// just written and `p` is effective — for both mappings, any prior state
/// and any value, including 0.
pub proof fn lemma_set_then_read(s: ParamState, p: u128, ratio: u32, status: u8)
    ensures
        spec_get_collateral(spec_set_collateral(s, p, ratio), p) == ratio,
        spec_is_effective_collateral(spec_set_collateral(s, p, ratio), p),
        spec_get_synthetic(spec_set_synthetic(s, p, status), p) == status,
        spec_is_effective_synthetic(spec_set_synthetic(s, p, status), p),
{
}

/// After a remove of `p`, reading `p` yields 0 and `p` is no longer
/// effective, whatever was stored before — in particular after a prior
/// set of `p`.
pub proof fn lemma_remove_then_read(s: ParamState, p: u128)
    ensures
        spec_get_collateral(spec_remove_collateral(s, p), p) == 0,
        !spec_is_effective_collateral(spec_remove_collateral(s, p), p),
        spec_get_synthetic(spec_remove_synthetic(s, p), p) == 0,
        !spec_is_effective_synthetic(spec_remove_synthetic(s, p), p),
{
}

/// Removing a key that has no entry is a no-op: the resulting state is
/// the old state, for both mappings.
pub proof fn lemma_remove_absent_is_noop(s: ParamState, p: u128)
    requires
        !spec_is_effective_collateral(s, p),
        !spec_is_effective_synthetic(s, p),
    ensures
        spec_remove_collateral(s, p) == s,
        spec_remove_synthetic(s, p) == s,
{
    assert(s.collateral_assets.remove(p) =~= s.collateral_assets);
    assert(s.synthetic_assets.remove(p) =~= s.synthetic_assets);
}

/// A successful ownership transfer takes effect immediately and
/// irreversibly: the new owner is authorized for owner-gated operations,
/// and the previous owner (when distinct) no longer is.
pub proof fn lemma_transfer_ownership_gates(s: ParamState, next: u128)
    ensures
        spec_transfer_ownership(s, next).owner == next,
        is_authorized(spec_transfer_ownership(s, next), next),
        s.owner != next ==> !is_authorized(spec_transfer_ownership(s, next), s.owner),
{
}

} // verus!
