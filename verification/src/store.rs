//! The parameter store and its operations.

use std::collections::HashMap;
use vstd::prelude::*;

use crate::principal::Principal;

verus! {

broadcast use vstd::std_specs::hash::group_hash_axioms;

/// Why an invocation was rejected. Either kind aborts the whole call:
/// the store performs no local recovery, and a rejected call leaves the
/// store unchanged.
#[derive(Clone, Copy, PartialEq, Eq, Structural, Debug)]
pub enum Error {
    /// The calling principal does not equal the current owner on an
    /// owner-gated operation.
    Unauthorized,
    /// A principal used as an asset key, or as a new owner, equals the
    /// reserved sentinel value.
    InvalidKey,
}

/// The abstract state of a parameter store: the two asset mappings, keyed
/// by raw principal identifiers, together with the scalar configuration
/// values and the owner's identifier.
pub ghost struct ParamState {
    pub collateral_assets: Map<u128, u32>,
    pub synthetic_assets: Map<u128, u8>,
    pub leverage_ratio: (u8, u8),
    pub interest_fee: u8,
    pub transaction_fee: u8,
    pub owner: u128,
}

/// The state of a store just after construction by `owner`: both mappings
/// empty, leverage ratio (1, 10), interest fee 0, transaction fee 3.
pub open spec fn initial_state(owner: u128) -> ParamState {
    ParamState {
        collateral_assets: Map::empty(),
        synthetic_assets: Map::empty(),
        leverage_ratio: (1u8, 10u8),
        interest_fee: 0u8,
        transaction_fee: 3u8,
        owner: owner,
    }
}

/// Whether `caller` may perform owner-gated operations in state `s`:
/// strict equality with the current owner.
pub open spec fn is_authorized(s: ParamState, caller: u128) -> bool {
    caller == s.owner
}

/// The collateral ratio stored for `p`, or 0 if `p` has no entry.
pub open spec fn spec_get_collateral(s: ParamState, p: u128) -> u32 {
    if s.collateral_assets.contains_key(p) {
        s.collateral_assets[p]
    } else {
        0u32
    }
}

/// Whether `p` currently has a stored collateral entry (of any value).
pub open spec fn spec_is_effective_collateral(s: ParamState, p: u128) -> bool {
    s.collateral_assets.contains_key(p)
}

/// The state after inserting or overwriting the collateral ratio for `p`.
pub open spec fn spec_set_collateral(s: ParamState, p: u128, ratio: u32) -> ParamState {
    ParamState { collateral_assets: s.collateral_assets.insert(p, ratio), ..s }
}

/// The state after removing `p` from the collateral mapping.
pub open spec fn spec_remove_collateral(s: ParamState, p: u128) -> ParamState {
    ParamState { collateral_assets: s.collateral_assets.remove(p), ..s }
}

/// The synthetic-asset status stored for `p`, or 0 if `p` has no entry.
pub open spec fn spec_get_synthetic(s: ParamState, p: u128) -> u8 {
    if s.synthetic_assets.contains_key(p) {
        s.synthetic_assets[p]
    } else {
        0u8
    }
}

/// Whether `p` currently has a stored synthetic-asset entry (of any value).
pub open spec fn spec_is_effective_synthetic(s: ParamState, p: u128) -> bool {
    s.synthetic_assets.contains_key(p)
}

/// The state after inserting or overwriting the synthetic status for `p`.
pub open spec fn spec_set_synthetic(s: ParamState, p: u128, status: u8) -> ParamState {
    ParamState { synthetic_assets: s.synthetic_assets.insert(p, status), ..s }
}

/// The state after removing `p` from the synthetic mapping.
pub open spec fn spec_remove_synthetic(s: ParamState, p: u128) -> ParamState {
    ParamState { synthetic_assets: s.synthetic_assets.remove(p), ..s }
}

/// The state after overwriting the leverage-ratio pair.
pub open spec fn spec_set_leverage_ratio(s: ParamState, min: u8, max: u8) -> ParamState {
    ParamState { leverage_ratio: (min, max), ..s }
}

/// The state after overwriting the interest fee.
pub open spec fn spec_set_interest_fee(s: ParamState, fee: u8) -> ParamState {
    ParamState { interest_fee: fee, ..s }
}

/// The state after overwriting the transaction fee.
pub open spec fn spec_set_transaction_fee(s: ParamState, fee: u8) -> ParamState {
    ParamState { transaction_fee: fee, ..s }
}

/// The state after replacing the owner.
pub open spec fn spec_transfer_ownership(s: ParamState, new_owner: u128) -> ParamState {
    ParamState { owner: new_owner, ..s }
}

/// Invariant of every constructed store state: the owner is never the
/// sentinel principal, and no key of either mapping is the sentinel.
pub open spec fn state_wf(s: ParamState) -> bool {
    &&& s.owner != 0
    &&& !s.collateral_assets.contains_key(0)
    &&& !s.synthetic_assets.contains_key(0)
}

/// A single-owner administered parameter store.
///
/// One instance exists per deployment; the host serializes all calls to
/// it and supplies the calling principal for each. Reads are open to any
/// caller; every mutation is gated on the calling principal being the
/// current owner.
pub struct Param {
    collateral_assets: HashMap<u128, u32>,
    synthetic_assets: HashMap<u128, u8>,
    leverage_ratio: (u8, u8),
    interest_fee: u8,
    transaction_fee: u8,
    owner: Principal,
}

impl View for Param {
    type V = ParamState;

    closed spec fn view(&self) -> ParamState {
        ParamState {
            collateral_assets: self.collateral_assets@,
            synthetic_assets: self.synthetic_assets@,
            leverage_ratio: self.leverage_ratio,
            interest_fee: self.interest_fee,
            transaction_fee: self.transaction_fee,
            owner: self.owner@,
        }
    }
}

impl Param {
    /// Well-formedness of the store, stated over its abstract state.
    pub open spec fn wf(&self) -> bool {
        state_wf(self@)
    }

    /// Creates the store, recording the creating principal as owner and
    /// setting every other field to its default.
    pub fn new(creator: Principal) -> (s: Param)
        requires
            creator@ != 0,
        ensures
            s.wf(),
            s@ == initial_state(creator@),
    {
        let s = Param {
            collateral_assets: HashMap::new(),
            synthetic_assets: HashMap::new(),
            leverage_ratio: (1, 10),
            interest_fee: 0,
            transaction_fee: 3,
            owner: creator,
        };
        s
    }

    /// Strict equality of the caller with the current owner.
    fn is_owner(&self, caller: Principal) -> (b: bool)
        ensures
            b == is_authorized(self@, caller@),
    {
        caller.raw() == self.owner.raw()
    }

    /// Returns the collateral ratio stored for `asset`, or 0 if absent.
    /// Open to any caller; fails only on the sentinel key.
    pub fn get_collateral_asset(&self, asset: Principal) -> (r: Result<u32, Error>)
        ensures
            asset@ == 0 ==> r == Err::<u32, Error>(Error::InvalidKey),
            asset@ != 0 ==> r == Ok::<u32, Error>(spec_get_collateral(self@, asset@)),
    {
        if asset.is_sentinel() {
            return Err(Error::InvalidKey);
        }
        match self.collateral_assets.get(&asset.raw()) {
            Some(ratio) => Ok(*ratio),
            None => Ok(0),
        }
    }

    /// Inserts or overwrites the collateral ratio for `asset`. Owner-only;
    /// the sentinel key is rejected. A rejected call leaves the store
    /// unchanged.
    pub fn set_collateral_asset(&mut self, caller: Principal, asset: Principal, ratio: u32) -> (r:
        Result<(), Error>)
        requires
            old(self).wf(),
        ensures
            final(self).wf(),
            !is_authorized(old(self)@, caller@) ==> r == Err::<(), Error>(Error::Unauthorized)
                && final(self)@ == old(self)@,
            is_authorized(old(self)@, caller@) && asset@ == 0 ==> r == Err::<(), Error>(
                Error::InvalidKey,
            ) && final(self)@ == old(self)@,
            is_authorized(old(self)@, caller@) && asset@ != 0 ==> r == Ok::<(), Error>(())
                && final(self)@ == spec_set_collateral(old(self)@, asset@, ratio),
    {
        if !self.is_owner(caller) {
            return Err(Error::Unauthorized);
        }
        if asset.is_sentinel() {
            return Err(Error::InvalidKey);
        }
        self.collateral_assets.insert(asset.raw(), ratio);
        Ok(())
    }

    /// Removes `asset` from the collateral mapping if present; removing an
    /// absent key succeeds and changes nothing. Owner-only; the sentinel
    /// key is rejected.
    pub fn remove_collateral_asset(&mut self, caller: Principal, asset: Principal) -> (r: Result<
        (),
        Error,
    >)
        requires
            old(self).wf(),
        ensures
            final(self).wf(),
            !is_authorized(old(self)@, caller@) ==> r == Err::<(), Error>(Error::Unauthorized)
                && final(self)@ == old(self)@,
            is_authorized(old(self)@, caller@) && asset@ == 0 ==> r == Err::<(), Error>(
                Error::InvalidKey,
            ) && final(self)@ == old(self)@,
            is_authorized(old(self)@, caller@) && asset@ != 0 ==> r == Ok::<(), Error>(())
                && final(self)@ == spec_remove_collateral(old(self)@, asset@),
    {
        if !self.is_owner(caller) {
            return Err(Error::Unauthorized);
        }
        if asset.is_sentinel() {
            return Err(Error::InvalidKey);
        }
        self.collateral_assets.remove(&asset.raw());
        Ok(())
    }

    /// Whether `asset` currently has a stored collateral entry, regardless
    /// of its value (a stored 0 counts). Open to any caller; fails only on
    /// the sentinel key.
    pub fn is_effective_collateral_asset(&self, asset: Principal) -> (r: Result<bool, Error>)
        ensures
            asset@ == 0 ==> r == Err::<bool, Error>(Error::InvalidKey),
            asset@ != 0 ==> r == Ok::<bool, Error>(spec_is_effective_collateral(self@, asset@)),
    {
        if asset.is_sentinel() {
            return Err(Error::InvalidKey);
        }
        if self.collateral_assets.contains_key(&asset.raw()) {
            return Ok(true);
        }
        Ok(false)
    }

    /// Returns the synthetic-asset status stored for `asset`, or 0 if
    /// absent. Open to any caller; fails only on the sentinel key.
    pub fn get_synthetic_asset(&self, asset: Principal) -> (r: Result<u8, Error>)
        ensures
            asset@ == 0 ==> r == Err::<u8, Error>(Error::InvalidKey),
            asset@ != 0 ==> r == Ok::<u8, Error>(spec_get_synthetic(self@, asset@)),
    {
        if asset.is_sentinel() {
            return Err(Error::InvalidKey);
        }
        match self.synthetic_assets.get(&asset.raw()) {
            Some(status) => Ok(*status),
            None => Ok(0),
        }
    }

    /// Inserts or overwrites the synthetic-asset status for `asset`.
    /// Owner-only; the sentinel key is rejected.
    pub fn set_synthetic_asset(&mut self, caller: Principal, asset: Principal, status: u8) -> (r:
        Result<(), Error>)
        requires
            old(self).wf(),
        ensures
            final(self).wf(),
            !is_authorized(old(self)@, caller@) ==> r == Err::<(), Error>(Error::Unauthorized)
                && final(self)@ == old(self)@,
            is_authorized(old(self)@, caller@) && asset@ == 0 ==> r == Err::<(), Error>(
                Error::InvalidKey,
            ) && final(self)@ == old(self)@,
            is_authorized(old(self)@, caller@) && asset@ != 0 ==> r == Ok::<(), Error>(())
                && final(self)@ == spec_set_synthetic(old(self)@, asset@, status),
    {
        if !self.is_owner(caller) {
            return Err(Error::Unauthorized);
        }
        if asset.is_sentinel() {
            return Err(Error::InvalidKey);
        }
        self.synthetic_assets.insert(asset.raw(), status);
        Ok(())
    }

    /// Removes `asset` from the synthetic mapping if present; removing an
    /// absent key succeeds and changes nothing. Owner-only; the sentinel
    /// key is rejected.
    pub fn remove_synthetic_asset(&mut self, caller: Principal, asset: Principal) -> (r: Result<
        (),
        Error,
    >)
        requires
            old(self).wf(),
        ensures
            final(self).wf(),
            !is_authorized(old(self)@, caller@) ==> r == Err::<(), Error>(Error::Unauthorized)
                && final(self)@ == old(self)@,
            is_authorized(old(self)@, caller@) && asset@ == 0 ==> r == Err::<(), Error>(
                Error::InvalidKey,
            ) && final(self)@ == old(self)@,
            is_authorized(old(self)@, caller@) && asset@ != 0 ==> r == Ok::<(), Error>(())
                && final(self)@ == spec_remove_synthetic(old(self)@, asset@),
    {
        if !self.is_owner(caller) {
            return Err(Error::Unauthorized);
        }
        if asset.is_sentinel() {
            return Err(Error::InvalidKey);
        }
        self.synthetic_assets.remove(&asset.raw());
        Ok(())
    }

    /// Whether `asset` currently has a stored synthetic entry, regardless
    /// of its value. Open to any caller; fails only on the sentinel key.
    pub fn is_effective_synthetic_asset(&self, asset: Principal) -> (r: Result<bool, Error>)
        ensures
            asset@ == 0 ==> r == Err::<bool, Error>(Error::InvalidKey),
            asset@ != 0 ==> r == Ok::<bool, Error>(spec_is_effective_synthetic(self@, asset@)),
    {
        if asset.is_sentinel() {
            return Err(Error::InvalidKey);
        }
        if self.synthetic_assets.contains_key(&asset.raw()) {
            return Ok(true);
        }
        Ok(false)
    }

    /// Returns the current (min, max) leverage-ratio pair. Any caller.
    pub fn get_leverage_ratio(&self) -> (r: (u8, u8))
        ensures
            r == self@.leverage_ratio,
    {
        self.leverage_ratio
    }

    /// Unconditionally overwrites the leverage-ratio pair; no relation
    /// between `min` and `max` is enforced. Owner-only.
    pub fn set_leverage_ratio(&mut self, caller: Principal, min: u8, max: u8) -> (r: Result<
        (),
        Error,
    >)
        requires
            old(self).wf(),
        ensures
            final(self).wf(),
            !is_authorized(old(self)@, caller@) ==> r == Err::<(), Error>(Error::Unauthorized)
                && final(self)@ == old(self)@,
            is_authorized(old(self)@, caller@) ==> r == Ok::<(), Error>(()) && final(self)@
                == spec_set_leverage_ratio(old(self)@, min, max),
    {
        if !self.is_owner(caller) {
            return Err(Error::Unauthorized);
        }
        self.leverage_ratio = (min, max);
        Ok(())
    }

    /// Returns the current interest fee. Any caller.
    pub fn get_interest_fee(&self) -> (r: u8)
        ensures
            r == self@.interest_fee,
    {
        self.interest_fee
    }

    /// Overwrites the interest fee. Owner-only.
    pub fn set_interest_fee(&mut self, caller: Principal, interest_fee: u8) -> (r: Result<
        (),
        Error,
    >)
        requires
            old(self).wf(),
        ensures
            final(self).wf(),
            !is_authorized(old(self)@, caller@) ==> r == Err::<(), Error>(Error::Unauthorized)
                && final(self)@ == old(self)@,
            is_authorized(old(self)@, caller@) ==> r == Ok::<(), Error>(()) && final(self)@
                == spec_set_interest_fee(old(self)@, interest_fee),
    {
        if !self.is_owner(caller) {
            return Err(Error::Unauthorized);
        }
        self.interest_fee = interest_fee;
        Ok(())
    }

    /// Returns the current transaction fee. Any caller.
    pub fn get_transaction_fee(&self) -> (r: u8)
        ensures
            r == self@.transaction_fee,
    {
        self.transaction_fee
    }

    /// Overwrites the transaction fee. Owner-only.
    pub fn set_transaction_fee(&mut self, caller: Principal, transaction_fee: u8) -> (r: Result<
        (),
        Error,
    >)
        requires
            old(self).wf(),
        ensures
            final(self).wf(),
            !is_authorized(old(self)@, caller@) ==> r == Err::<(), Error>(Error::Unauthorized)
                && final(self)@ == old(self)@,
            is_authorized(old(self)@, caller@) ==> r == Ok::<(), Error>(()) && final(self)@
                == spec_set_transaction_fee(old(self)@, transaction_fee),
    {
        if !self.is_owner(caller) {
            return Err(Error::Unauthorized);
        }
        self.transaction_fee = transaction_fee;
        Ok(())
    }

    /// Replaces the owner with `new_owner`. Owner-only; the sentinel is
    /// rejected as a new owner. After success the previous owner loses all
    /// write privileges immediately.
    pub fn transfer_ownership(&mut self, caller: Principal, new_owner: Principal) -> (r: Result<
        (),
        Error,
    >)
        requires
            old(self).wf(),
        ensures
            final(self).wf(),
            !is_authorized(old(self)@, caller@) ==> r == Err::<(), Error>(Error::Unauthorized)
                && final(self)@ == old(self)@,
            is_authorized(old(self)@, caller@) && new_owner@ == 0 ==> r == Err::<(), Error>(
                Error::InvalidKey,
            ) && final(self)@ == old(self)@,
            is_authorized(old(self)@, caller@) && new_owner@ != 0 ==> r == Ok::<(), Error>(())
                && final(self)@ == spec_transfer_ownership(old(self)@, new_owner@),
    {
        if !self.is_owner(caller) {
            return Err(Error::Unauthorized);
        }
        if new_owner.is_sentinel() {
            return Err(Error::InvalidKey);
        }
        self.owner = new_owner;
        Ok(())
    }
}

} // verus!
