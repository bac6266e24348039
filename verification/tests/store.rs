use param::Error;
use param::Param;
use param::Principal;

fn owner() -> Principal {
    Principal::new(1001)
}

fn stranger() -> Principal {
    Principal::new(2002)
}

fn asset_a() -> Principal {
    Principal::new(31)
}

fn asset_b() -> Principal {
    Principal::new(32)
}

#[test]
fn fresh_store_has_defaults() {
    let s = Param::new(owner());
    assert_eq!(s.get_leverage_ratio(), (1, 10));
    assert_eq!(s.get_interest_fee(), 0);
    assert_eq!(s.get_transaction_fee(), 3);
}

#[test]
fn unset_key_reads_zero_and_is_not_effective() {
    let s = Param::new(owner());
    assert_eq!(s.get_collateral_asset(asset_a()), Ok(0));
    assert_eq!(s.is_effective_collateral_asset(asset_a()), Ok(false));
    assert_eq!(s.get_synthetic_asset(asset_a()), Ok(0));
    assert_eq!(s.is_effective_synthetic_asset(asset_a()), Ok(false));
}

#[test]
fn set_then_get_collateral() {
    let mut s = Param::new(owner());
    assert_eq!(s.set_collateral_asset(owner(), asset_a(), 150), Ok(()));
    assert_eq!(s.get_collateral_asset(asset_a()), Ok(150));
    assert_eq!(s.is_effective_collateral_asset(asset_a()), Ok(true));
    // A different key stays unset.
    assert_eq!(s.get_collateral_asset(asset_b()), Ok(0));
    assert_eq!(s.is_effective_collateral_asset(asset_b()), Ok(false));
}

#[test]
fn set_overwrites_existing_collateral() {
    let mut s = Param::new(owner());
    assert_eq!(s.set_collateral_asset(owner(), asset_a(), 150), Ok(()));
    assert_eq!(s.set_collateral_asset(owner(), asset_a(), 200), Ok(()));
    assert_eq!(s.get_collateral_asset(asset_a()), Ok(200));
}

#[test]
fn stored_zero_is_effective() {
    let mut s = Param::new(owner());
    assert_eq!(s.set_collateral_asset(owner(), asset_a(), 0), Ok(()));
    assert_eq!(s.get_collateral_asset(asset_a()), Ok(0));
    assert_eq!(s.is_effective_collateral_asset(asset_a()), Ok(true));
    assert_eq!(s.set_synthetic_asset(owner(), asset_b(), 0), Ok(()));
    assert_eq!(s.is_effective_synthetic_asset(asset_b()), Ok(true));
}

#[test]
fn remove_collateral_after_set() {
    let mut s = Param::new(owner());
    assert_eq!(s.set_collateral_asset(owner(), asset_a(), 77), Ok(()));
    assert_eq!(s.remove_collateral_asset(owner(), asset_a()), Ok(()));
    assert_eq!(s.get_collateral_asset(asset_a()), Ok(0));
    assert_eq!(s.is_effective_collateral_asset(asset_a()), Ok(false));
}

#[test]
fn remove_absent_key_is_a_noop() {
    let mut s = Param::new(owner());
    assert_eq!(s.remove_collateral_asset(owner(), asset_a()), Ok(()));
    assert_eq!(s.remove_synthetic_asset(owner(), asset_a()), Ok(()));
    assert_eq!(s.is_effective_collateral_asset(asset_a()), Ok(false));
    assert_eq!(s.is_effective_synthetic_asset(asset_a()), Ok(false));
}

#[test]
fn set_then_get_synthetic() {
    let mut s = Param::new(owner());
    assert_eq!(s.set_synthetic_asset(owner(), asset_a(), 5), Ok(()));
    assert_eq!(s.get_synthetic_asset(asset_a()), Ok(5));
    assert_eq!(s.is_effective_synthetic_asset(asset_a()), Ok(true));
    assert_eq!(s.set_synthetic_asset(owner(), asset_a(), 9), Ok(()));
    assert_eq!(s.get_synthetic_asset(asset_a()), Ok(9));
    assert_eq!(s.remove_synthetic_asset(owner(), asset_a()), Ok(()));
    assert_eq!(s.get_synthetic_asset(asset_a()), Ok(0));
}

#[test]
fn non_owner_mutations_fail_and_change_nothing() {
    let mut s = Param::new(owner());
    assert_eq!(s.set_collateral_asset(owner(), asset_a(), 42), Ok(()));

    assert_eq!(
        s.set_collateral_asset(stranger(), asset_a(), 1),
        Err(Error::Unauthorized)
    );
    assert_eq!(
        s.remove_collateral_asset(stranger(), asset_a()),
        Err(Error::Unauthorized)
    );
    assert_eq!(
        s.set_synthetic_asset(stranger(), asset_a(), 1),
        Err(Error::Unauthorized)
    );
    assert_eq!(
        s.remove_synthetic_asset(stranger(), asset_a()),
        Err(Error::Unauthorized)
    );
    assert_eq!(
        s.set_leverage_ratio(stranger(), 3, 4),
        Err(Error::Unauthorized)
    );
    assert_eq!(s.set_interest_fee(stranger(), 8), Err(Error::Unauthorized));
    assert_eq!(
        s.set_transaction_fee(stranger(), 8),
        Err(Error::Unauthorized)
    );
    assert_eq!(
        s.transfer_ownership(stranger(), stranger()),
        Err(Error::Unauthorized)
    );

    // Every field still holds its previous value.
    assert_eq!(s.get_collateral_asset(asset_a()), Ok(42));
    assert_eq!(s.get_synthetic_asset(asset_a()), Ok(0));
    assert_eq!(s.get_leverage_ratio(), (1, 10));
    assert_eq!(s.get_interest_fee(), 0);
    assert_eq!(s.get_transaction_fee(), 3);
    // The owner still is the owner.
    assert_eq!(s.set_interest_fee(owner(), 2), Ok(()));
}

#[test]
fn reads_are_open_to_any_caller() {
    let mut s = Param::new(owner());
    assert_eq!(s.set_collateral_asset(owner(), asset_a(), 9), Ok(()));
    // Reads take no caller at all; the values are visible regardless of
    // who asks through the host.
    assert_eq!(s.get_collateral_asset(asset_a()), Ok(9));
    assert_eq!(s.is_effective_collateral_asset(asset_a()), Ok(true));
}

#[test]
fn transfer_ownership_switches_privileges() {
    let mut s = Param::new(owner());
    assert_eq!(s.transfer_ownership(owner(), stranger()), Ok(()));
    // The previous owner lost all write privileges immediately.
    assert_eq!(s.set_interest_fee(owner(), 5), Err(Error::Unauthorized));
    // The new owner gained them.
    assert_eq!(s.set_interest_fee(stranger(), 5), Ok(()));
    assert_eq!(s.get_interest_fee(), 5);
}

#[test]
fn sentinel_key_is_rejected_everywhere() {
    let mut s = Param::new(owner());
    let empty = Principal::sentinel();
    assert_eq!(s.get_collateral_asset(empty), Err(Error::InvalidKey));
    assert_eq!(
        s.is_effective_collateral_asset(empty),
        Err(Error::InvalidKey)
    );
    assert_eq!(
        s.set_collateral_asset(owner(), empty, 1),
        Err(Error::InvalidKey)
    );
    assert_eq!(
        s.remove_collateral_asset(owner(), empty),
        Err(Error::InvalidKey)
    );
    assert_eq!(s.get_synthetic_asset(empty), Err(Error::InvalidKey));
    assert_eq!(
        s.is_effective_synthetic_asset(empty),
        Err(Error::InvalidKey)
    );
    assert_eq!(
        s.set_synthetic_asset(owner(), empty, 1),
        Err(Error::InvalidKey)
    );
    assert_eq!(
        s.remove_synthetic_asset(owner(), empty),
        Err(Error::InvalidKey)
    );
    assert_eq!(s.transfer_ownership(owner(), empty), Err(Error::InvalidKey));
    // Nothing changed.
    assert_eq!(s.get_leverage_ratio(), (1, 10));
    assert_eq!(s.set_interest_fee(owner(), 1), Ok(()));
}

#[test]
fn sentinel_by_non_owner_on_gated_op_reports_unauthorized() {
    // The owner check comes first on owner-gated operations, so a
    // non-owner passing the sentinel key sees Unauthorized.
    let mut s = Param::new(owner());
    let empty = Principal::sentinel();
    assert_eq!(
        s.set_collateral_asset(stranger(), empty, 1),
        Err(Error::Unauthorized)
    );
    assert_eq!(
        s.transfer_ownership(stranger(), empty),
        Err(Error::Unauthorized)
    );
}

#[test]
fn leverage_ratio_accepts_any_pair() {
    let mut s = Param::new(owner());
    // No min <= max relationship is enforced.
    assert_eq!(s.set_leverage_ratio(owner(), 9, 2), Ok(()));
    assert_eq!(s.get_leverage_ratio(), (9, 2));
    assert_eq!(s.set_leverage_ratio(owner(), 0, 0), Ok(()));
    assert_eq!(s.get_leverage_ratio(), (0, 0));
}

#[test]
fn full_administration_scenario() {
    let a = Principal::new(11);
    let b = Principal::new(22);
    let mut s = Param::new(a);

    assert_eq!(s.set_leverage_ratio(a, 2, 5), Ok(()));
    assert_eq!(s.get_leverage_ratio(), (2, 5));

    assert_eq!(s.set_transaction_fee(b, 9), Err(Error::Unauthorized));
    assert_eq!(s.get_transaction_fee(), 3);

    assert_eq!(s.transfer_ownership(a, b), Ok(()));
    assert_eq!(s.set_interest_fee(a, 1), Err(Error::Unauthorized));
    assert_eq!(s.set_interest_fee(b, 1), Ok(()));
    assert_eq!(s.get_interest_fee(), 1);
}

#[test]
fn principal_equality_and_sentinel() {
    assert_eq!(Principal::new(5), Principal::new(5));
    assert_ne!(Principal::new(5), Principal::new(6));
    assert!(Principal::sentinel().is_sentinel());
    assert!(!Principal::new(5).is_sentinel());
    assert_eq!(Principal::new(0), Principal::sentinel());
}
