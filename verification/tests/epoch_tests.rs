use radix_engine::addresses::ComponentAddress;
use radix_engine::epoch_manager::{
    ApplicationError, EpochManagerError, EpochManagerExport, EpochManagerNativePackage,
    EpochManagerSubstate, RuntimeError, UpdateValidator, Validator, ValidatorSetSubstate,
};

fn manager() -> EpochManagerSubstate {
    EpochManagerSubstate {
        address: ComponentAddress::EpochManager(vec![1u8; 26]),
        epoch: 5,
        round: 3,
        rounds_per_epoch: 10,
        num_unstake_epochs: 2,
    }
}

fn validator(tag: u8, stake: u128) -> (ComponentAddress, Validator) {
    (ComponentAddress::Validator(vec![tag; 26]), Validator { key: vec![tag; 33], stake })
}

#[test]
fn next_round_within_the_epoch_only_advances_the_round() {
    let mut mgr = manager();
    let mut current = ValidatorSetSubstate { validator_set: vec![validator(1, 100)], epoch: 5 };
    let mut preparing = ValidatorSetSubstate { validator_set: vec![validator(2, 50)], epoch: 6 };
    EpochManagerNativePackage::next_round(&mut mgr, &mut current, &mut preparing, 7).unwrap();
    assert_eq!(mgr.epoch, 5);
    assert_eq!(mgr.round, 7);
    assert_eq!(current.epoch, 5);
    assert_eq!(preparing.epoch, 6);
}

#[test]
fn round_reaching_rounds_per_epoch_advances_the_epoch() {
    let mut mgr = manager();
    let mut current = ValidatorSetSubstate { validator_set: vec![validator(1, 100)], epoch: 5 };
    let mut preparing = ValidatorSetSubstate { validator_set: vec![validator(2, 50)], epoch: 6 };
    EpochManagerNativePackage::next_round(&mut mgr, &mut current, &mut preparing, 10).unwrap();
    assert_eq!(mgr.epoch, 6);
    assert_eq!(mgr.round, 0);
    assert_eq!(current.epoch, 6);
    assert_eq!(current.validator_set.len(), 1);
    assert_eq!(current.validator_set[0].1.stake, 50);
    assert_eq!(preparing.epoch, 7);
    assert_eq!(preparing.validator_set.len(), 1);
    assert_eq!(preparing.validator_set[0].1.stake, 50);
}

#[test]
fn stale_round_update_is_refused() {
    let mut mgr = manager();
    let mut current = ValidatorSetSubstate { validator_set: vec![], epoch: 5 };
    let mut preparing = ValidatorSetSubstate { validator_set: vec![], epoch: 6 };
    let result = EpochManagerNativePackage::next_round(&mut mgr, &mut current, &mut preparing, 3);
    match result {
        Err(RuntimeError::ApplicationError(ApplicationError::EpochManagerError(
            EpochManagerError::InvalidRoundUpdate { from, to },
        ))) => {
            assert_eq!(from, 3);
            assert_eq!(to, 3);
        }
        other => panic!("unexpected result: {:?}", other),
    }
    assert_eq!(mgr.round, 3);
}

#[test]
fn set_epoch_overwrites_the_epoch() {
    let mut mgr = manager();
    EpochManagerNativePackage::set_epoch(&mut mgr, 42);
    assert_eq!(mgr.epoch, 42);
    assert_eq!(EpochManagerNativePackage::get_current_epoch(&mgr), 42);
}

#[test]
fn update_validator_registers_and_unregisters() {
    let mut set = ValidatorSetSubstate { validator_set: vec![validator(1, 100)], epoch: 5 };
    let (addr2, _) = validator(2, 0);
    EpochManagerNativePackage::update_validator(
        &mut set,
        addr2,
        UpdateValidator::Register(vec![2u8; 33], 75),
    );
    assert_eq!(set.validator_set.len(), 2);
    assert_eq!(set.validator_set[1].1.stake, 75);

    let (addr1, _) = validator(1, 0);
    EpochManagerNativePackage::update_validator(&mut set, addr1, UpdateValidator::Unregister);
    assert_eq!(set.validator_set.len(), 1);
    assert_eq!(set.validator_set[0].1.stake, 75);
}

#[test]
fn create_builds_both_validator_sets_and_the_method_rules() {
    let (mgr, current, preparing, rules) = EpochManagerNativePackage::create(
        vec![9u8; 26],
        100,
        50,
        3,
        vec![validator(1, 10), validator(2, 20)],
    );
    assert_eq!(mgr.epoch, 100);
    assert_eq!(mgr.round, 0);
    assert_eq!(mgr.rounds_per_epoch, 50);
    assert_eq!(mgr.num_unstake_epochs, 3);
    assert_eq!(current.epoch, 100);
    assert_eq!(current.validator_set.len(), 2);
    assert_eq!(preparing.epoch, 101);
    assert_eq!(preparing.validator_set.len(), 2);
    assert_eq!(rules.len(), 5);
    assert_eq!(rules[0].0, "next_round");
    assert_eq!(rules[1].0, "get_current_epoch");
    assert_eq!(rules[4].0, "set_epoch");
}

#[test]
fn invoke_export_routes_by_name_and_receiver() {
    assert_eq!(
        EpochManagerNativePackage::invoke_export("create", false).unwrap(),
        EpochManagerExport::Create
    );
    assert!(EpochManagerNativePackage::invoke_export("create", true).is_err());
    assert_eq!(
        EpochManagerNativePackage::invoke_export("next_round", true).unwrap(),
        EpochManagerExport::NextRound
    );
    assert!(EpochManagerNativePackage::invoke_export("next_round", false).is_err());
    assert!(EpochManagerNativePackage::invoke_export("unknown_export", true).is_err());
}

#[test]
fn create_auth_demands_the_system_badge() {
    let auth = EpochManagerNativePackage::create_auth();
    assert_eq!(auth.len(), 1);
}
