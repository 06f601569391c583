use manta_xassets::balance::Balance;
use manta_xassets::location::{
    AccountConverter, AccountId, ConversionError, Junction, Location, NetworkId,
};
use manta_xassets::message::{
    build_relay_withdraw_deposit, Asset, AssetFilter, Instruction, Message,
};
use manta_xassets::pallet::{ensure_signed, relay_envelope, route_result, Error, Origin, RouteError};
use manta_xassets::host::DeliveryError;

fn account(byte: u8) -> AccountId {
    AccountId([byte; 32])
}

fn relay() -> Location {
    Location::X1(Junction::Parent)
}

fn withdraw_deposit(location: Location, amount: u128) -> Message {
    Message::Program(vec![
        Instruction::WithdrawAsset { asset: Asset { id: location, amount } },
        Instruction::DepositAsset { assets: AssetFilter::All, destination: location },
    ])
}

#[test]
fn builder_gives_withdraw_then_deposit_all() {
    assert_eq!(build_relay_withdraw_deposit(relay(), 1000), withdraw_deposit(relay(), 1000));
}

#[test]
fn builder_does_not_special_case_zero() {
    let sibling = Location::X2(Junction::Parent, Junction::Parachain(2000));
    assert_eq!(build_relay_withdraw_deposit(sibling, 0), withdraw_deposit(sibling, 0));
}

#[test]
fn builder_takes_the_largest_amount() {
    assert_eq!(
        build_relay_withdraw_deposit(relay(), u128::MAX),
        withdraw_deposit(relay(), u128::MAX)
    );
}

#[test]
fn builder_result_has_two_instructions() {
    match build_relay_withdraw_deposit(Location::Null, 5) {
        Message::Program(instructions) => assert_eq!(instructions.len(), 2),
        other => panic!("not a program: {:?}", other),
    }
}

#[test]
fn balance_within_128_bits_is_kept() {
    assert_eq!(Balance::from_u128(0).saturated_amount(), 0);
    assert_eq!(Balance::from_u128(1000).saturated_amount(), 1000);
    assert_eq!(Balance::from_u128(u128::MAX).saturated_amount(), u128::MAX);
}

#[test]
fn balance_words_are_least_significant_first() {
    assert_eq!(Balance::from_u128(1).words, [1, 0, 0, 0]);
    assert_eq!(Balance::from_u128(1 << 64).words, [0, 1, 0, 0]);
    assert_eq!(Balance::from_u128(u128::MAX).words, [u64::MAX, u64::MAX, 0, 0]);
    assert_eq!(Balance { words: [7, 1, 0, 0] }.saturated_amount(), (1u128 << 64) + 7);
}

#[test]
fn balance_above_128_bits_saturates() {
    assert_eq!(Balance { words: [0, 0, 1, 0] }.saturated_amount(), u128::MAX);
    assert_eq!(Balance { words: [7, 0, 0, 1] }.saturated_amount(), u128::MAX);
    assert_eq!(Balance { words: [u64::MAX; 4] }.saturated_amount(), u128::MAX);
}

#[test]
fn account_round_trips_through_its_location() {
    let converter = AccountConverter::new(NetworkId::Kusama);
    let location = converter.to_location(&account(9)).unwrap();
    assert_eq!(
        location,
        Location::X1(Junction::AccountId32 { network: NetworkId::Kusama, id: [9; 32] })
    );
    assert_eq!(converter.to_account(&location), Ok(account(9)));
}

#[test]
fn location_round_trips_through_its_account() {
    let converter = AccountConverter::new(NetworkId::Any);
    let location = Location::X1(Junction::AccountId32 { network: NetworkId::Any, id: [3; 32] });
    let who = converter.to_account(&location).unwrap();
    assert_eq!(converter.to_location(&who), Ok(location));
}

#[test]
fn locations_that_name_no_account_are_refused() {
    let converter = AccountConverter::new(NetworkId::Polkadot);
    let foreign = Junction::AccountId32 { network: NetworkId::Kusama, id: [3; 32] };
    let local = Junction::AccountId32 { network: NetworkId::Polkadot, id: [3; 32] };
    assert_eq!(converter.to_account(&Location::Null), Err(ConversionError));
    assert_eq!(converter.to_account(&relay()), Err(ConversionError));
    assert_eq!(converter.to_account(&Location::X1(Junction::Parachain(1))), Err(ConversionError));
    assert_eq!(converter.to_account(&Location::X1(foreign)), Err(ConversionError));
    assert_eq!(converter.to_account(&Location::X2(Junction::Parent, local)), Err(ConversionError));
}

#[test]
fn null_and_parent_locations() {
    assert!(Location::Null.is_null());
    assert!(!relay().is_null());
    assert_eq!(Location::parent(), relay());
}

#[test]
fn only_a_signed_origin_has_a_signer() {
    assert_eq!(ensure_signed(Origin::Signed(account(1))), Ok(account(1)));
    assert_eq!(ensure_signed(Origin::Root), Err(Error::Unauthorized));
    assert_eq!(ensure_signed(Origin::Unsigned), Err(Error::Unauthorized));
}

#[test]
fn null_interior_gets_no_envelope() {
    assert_eq!(relay_envelope(Location::Null, withdraw_deposit(relay(), 1)), withdraw_deposit(relay(), 1));
}

#[test]
fn interior_location_gets_an_envelope() {
    let who = Location::X1(Junction::Parachain(7));
    assert_eq!(
        relay_envelope(who, withdraw_deposit(relay(), 1)),
        Message::RelayedFrom { who, message: Box::new(withdraw_deposit(relay(), 1)) }
    );
}

#[test]
fn every_router_failure_is_a_failed_delivery() {
    assert_eq!(route_result(Ok(())), Ok(()));
    for reason in [
        DeliveryError::NotApplicable,
        DeliveryError::Transport,
        DeliveryError::Unroutable,
        DeliveryError::DestinationUnsupported,
        DeliveryError::ExceedsMaxMessageSize,
        DeliveryError::MissingArgument,
        DeliveryError::Fees,
    ] {
        assert_eq!(route_result(Err(reason)), Err(RouteError::DeliveryFailed));
    }
}

#[test]
fn a_location_is_made_of_its_junctions() {
    let a = Junction::Parent;
    let b = Junction::Parachain(2000);
    let c = Junction::AccountId32 { network: NetworkId::Any, id: [5; 32] };
    assert_eq!(Location::from_junctions(&vec![]), Some(Location::Null));
    assert_eq!(Location::from_junctions(&vec![a]), Some(Location::X1(a)));
    assert_eq!(Location::from_junctions(&vec![a, b]), Some(Location::X2(a, b)));
    assert_eq!(Location::from_junctions(&vec![a, b, c]), Some(Location::X3(a, b, c)));
    assert_eq!(
        Location::from_junctions(&vec![a, a, a, a, b, c, c, c]),
        Some(Location::X8(a, a, a, a, b, c, c, c))
    );
}

#[test]
fn a_path_of_nine_junctions_is_no_location() {
    assert_eq!(Location::from_junctions(&vec![Junction::Parent; 9]), None);
}

#[test]
fn a_location_gives_its_junctions_back() {
    let a = Junction::Parent;
    let b = Junction::Parachain(7);
    assert_eq!(Location::Null.junctions(), vec![]);
    assert_eq!(Location::X2(a, b).junctions(), vec![a, b]);
    for length in 0..=8 {
        let path = vec![Junction::Parachain(length); length as usize];
        let location = Location::from_junctions(&path).unwrap();
        assert_eq!(location.junctions(), path);
        assert_eq!(location.is_null(), length == 0);
    }
}
