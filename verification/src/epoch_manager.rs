//! The consensus manager: epochs advance when a round update reaches
//! `rounds_per_epoch`; the prepared validator set then becomes current, and
//! the preparing set moves one epoch ahead.

use vstd::prelude::*;

verus! {

use crate::addresses::ComponentAddress;
use crate::addresses::component_address_eq;
use crate::auth::AccessRule;
use crate::auth::AccessRuleNode;
use crate::auth::NonFungibleGlobalId;
use crate::auth::ProofRule;
use crate::auth::ResourceAddress;
use crate::auth::ResourceOrNonFungible;

pub const EPOCH_MANAGER_CREATE_IDENT: &'static str = "create";
pub const EPOCH_MANAGER_GET_CURRENT_EPOCH_IDENT: &'static str = "get_current_epoch";
pub const EPOCH_MANAGER_SET_EPOCH_IDENT: &'static str = "set_epoch";
pub const EPOCH_MANAGER_NEXT_ROUND_IDENT: &'static str = "next_round";
pub const EPOCH_MANAGER_CREATE_VALIDATOR_IDENT: &'static str = "create_validator";
pub const EPOCH_MANAGER_UPDATE_VALIDATOR_IDENT: &'static str = "update_validator";

/// The manager's own state.
#[derive(Debug, Clone)]
pub struct EpochManagerSubstate {
    pub address: ComponentAddress,
    pub epoch: u64,
    pub round: u64,
    pub rounds_per_epoch: u64,
    pub num_unstake_epochs: u64,
}

/// One registered validator: its key and its stake.
#[derive(Debug, Clone)]
pub struct Validator {
    pub key: Vec<u8>,
    pub stake: u128,
}

/// A validator set, current or preparing, with the epoch it belongs to.
#[derive(Debug)]
pub struct ValidatorSetSubstate {
    pub validator_set: Vec<(ComponentAddress, Validator)>,
    pub epoch: u64,
}

#[derive(Debug, Clone, PartialEq, Eq, Structural)]
pub enum EpochManagerError {
    InvalidRoundUpdate { from: u64, to: u64 },
}

#[derive(Debug, Clone, PartialEq, Eq, Structural)]
pub enum ApplicationError {
    EpochManagerError(EpochManagerError),
}

#[derive(Debug)]
pub enum InterpreterError {
    InvalidInvocation,
    NativeExpectedReceiver(String),
    NativeUnexpectedReceiver(String),
    NativeExportDoesNotExist(String),
}

#[derive(Debug)]
pub enum RuntimeError {
    InterpreterError(InterpreterError),
    ApplicationError(ApplicationError),
}

/// Which export of the package an invocation names.
#[derive(Debug, Clone, Copy, PartialEq, Eq, Structural)]
pub enum EpochManagerExport {
    Create,
    GetCurrentEpoch,
    SetEpoch,
    NextRound,
    CreateValidator,
    UpdateValidator,
}

/// A change to the preparing validator set.
#[derive(Debug)]
pub enum UpdateValidator {
    Register(Vec<u8>, u128),
    Unregister,
}

/// Same validators with the same keys and stakes, in the same order.
pub open spec fn validator_sets_alike(
    a: Seq<(ComponentAddress, Validator)>,
    b: Seq<(ComponentAddress, Validator)>,
) -> bool {
    &&& a.len() == b.len()
    &&& forall|i: int|
        0 <= i < a.len() ==> {
            &&& (#[trigger] b[i]).0.entity_type() == (#[trigger] a[i]).0.entity_type()
            &&& b[i].0.payload() == a[i].0.payload()
            &&& b[i].1.key@ == a[i].1.key@
            &&& b[i].1.stake == a[i].1.stake
        }
}

/// Index of the validator with the given address.
pub open spec fn spec_find_validator(
    s: Seq<(ComponentAddress, Validator)>,
    a: &ComponentAddress,
) -> Option<int>
    decreases s.len(),
{
    if s.len() == 0 {
        None
    } else if s[0].0.entity_type() == a.entity_type() && s[0].0.payload() == a.payload() {
        Some(0)
    } else {
        match spec_find_validator(s.drop_first(), a) {
            Some(i) => Some(i + 1),
            None => None,
        }
    }
}

pub struct EpochManagerNativePackage;

impl EpochManagerNativePackage {
    /// Maps an export name and the presence of a receiver to the operation
    /// to run: `create` takes no receiver, every method takes one.
    pub fn invoke_export(export_name: &str, has_receiver: bool) -> (r: Result<
        EpochManagerExport,
        RuntimeError,
    >)
        ensures
            ({
                let n = vstd::utf8::encode_utf8(export_name@);
                let which = if n == vstd::utf8::encode_utf8(EPOCH_MANAGER_CREATE_IDENT@) {
                    Some((EpochManagerExport::Create, false))
                } else if n == vstd::utf8::encode_utf8(EPOCH_MANAGER_GET_CURRENT_EPOCH_IDENT@) {
                    Some((EpochManagerExport::GetCurrentEpoch, true))
                } else if n == vstd::utf8::encode_utf8(EPOCH_MANAGER_SET_EPOCH_IDENT@) {
                    Some((EpochManagerExport::SetEpoch, true))
                } else if n == vstd::utf8::encode_utf8(EPOCH_MANAGER_NEXT_ROUND_IDENT@) {
                    Some((EpochManagerExport::NextRound, true))
                } else if n == vstd::utf8::encode_utf8(EPOCH_MANAGER_CREATE_VALIDATOR_IDENT@) {
                    Some((EpochManagerExport::CreateValidator, true))
                } else if n == vstd::utf8::encode_utf8(EPOCH_MANAGER_UPDATE_VALIDATOR_IDENT@) {
                    Some((EpochManagerExport::UpdateValidator, true))
                } else {
                    None
                };
                match which {
                    Some((op, wants_receiver)) => if has_receiver == wants_receiver {
                        r == Ok::<EpochManagerExport, RuntimeError>(op)
                    } else if wants_receiver {
                        r matches Err(RuntimeError::InterpreterError(
                            InterpreterError::NativeExpectedReceiver(_)))
                    } else {
                        r matches Err(RuntimeError::InterpreterError(
                            InterpreterError::NativeUnexpectedReceiver(_)))
                    },
                    None => r matches Err(RuntimeError::InterpreterError(
                        InterpreterError::InvalidInvocation)),
                }
            }),
    {
        if crate::auth::str_eq(export_name, EPOCH_MANAGER_CREATE_IDENT) {
            if has_receiver {
                return Err(RuntimeError::InterpreterError(
                    InterpreterError::NativeUnexpectedReceiver(export_name.to_owned()),
                ));
            }
            Ok(EpochManagerExport::Create)
        } else if crate::auth::str_eq(export_name, EPOCH_MANAGER_GET_CURRENT_EPOCH_IDENT) {
            if !has_receiver {
                return Err(RuntimeError::InterpreterError(
                    InterpreterError::NativeExpectedReceiver(export_name.to_owned()),
                ));
            }
            Ok(EpochManagerExport::GetCurrentEpoch)
        } else if crate::auth::str_eq(export_name, EPOCH_MANAGER_SET_EPOCH_IDENT) {
            if !has_receiver {
                return Err(RuntimeError::InterpreterError(
                    InterpreterError::NativeExpectedReceiver(export_name.to_owned()),
                ));
            }
            Ok(EpochManagerExport::SetEpoch)
        } else if crate::auth::str_eq(export_name, EPOCH_MANAGER_NEXT_ROUND_IDENT) {
            if !has_receiver {
                return Err(RuntimeError::InterpreterError(
                    InterpreterError::NativeExpectedReceiver(export_name.to_owned()),
                ));
            }
            Ok(EpochManagerExport::NextRound)
        } else if crate::auth::str_eq(export_name, EPOCH_MANAGER_CREATE_VALIDATOR_IDENT) {
            if !has_receiver {
                return Err(RuntimeError::InterpreterError(
                    InterpreterError::NativeExpectedReceiver(export_name.to_owned()),
                ));
            }
            Ok(EpochManagerExport::CreateValidator)
        } else if crate::auth::str_eq(export_name, EPOCH_MANAGER_UPDATE_VALIDATOR_IDENT) {
            if !has_receiver {
                return Err(RuntimeError::InterpreterError(
                    InterpreterError::NativeExpectedReceiver(export_name.to_owned()),
                ));
            }
            Ok(EpochManagerExport::UpdateValidator)
        } else {
            Err(RuntimeError::InterpreterError(InterpreterError::InvalidInvocation))
        }
    }

    /// The current epoch.
    pub fn get_current_epoch(epoch_manager: &EpochManagerSubstate) -> (r: u64)
        ensures
            r == epoch_manager.epoch,
    {
        epoch_manager.epoch
    }

    /// Sets the epoch directly; the round and configuration stay.
    pub fn set_epoch(epoch_manager: &mut EpochManagerSubstate, epoch: u64)
        ensures
            final(epoch_manager).epoch == epoch,
            final(epoch_manager).round == old(epoch_manager).round,
            final(epoch_manager).rounds_per_epoch == old(epoch_manager).rounds_per_epoch,
            final(epoch_manager).num_unstake_epochs == old(epoch_manager).num_unstake_epochs,
            final(epoch_manager).address == old(epoch_manager).address,
    {
        epoch_manager.epoch = epoch;
    }

    /// Advances the round. A round not past the current one is refused. A
    /// round reaching `rounds_per_epoch` ends the epoch: the prepared set
    /// becomes current at its epoch, the manager's round resets, and the
    /// preparing set moves one epoch ahead.
    pub fn next_round(
        epoch_manager: &mut EpochManagerSubstate,
        current_validator_set: &mut ValidatorSetSubstate,
        preparing_validator_set: &mut ValidatorSetSubstate,
        round: u64,
    ) -> (r: Result<(), RuntimeError>)
        requires
            old(preparing_validator_set).epoch < u64::MAX,
        ensures
            round <= old(epoch_manager).round ==> {
                &&& r == Err::<(), RuntimeError>(RuntimeError::ApplicationError(
                    ApplicationError::EpochManagerError(EpochManagerError::InvalidRoundUpdate {
                        from: old(epoch_manager).round,
                        to: round,
                    }),
                ))
                &&& *final(epoch_manager) == *old(epoch_manager)
                &&& *final(current_validator_set) == *old(current_validator_set)
                &&& *final(preparing_validator_set) == *old(preparing_validator_set)
            },
            round > old(epoch_manager).round && round < old(epoch_manager).rounds_per_epoch ==> {
                &&& r is Ok
                &&& final(epoch_manager).round == round
                &&& final(epoch_manager).epoch == old(epoch_manager).epoch
                &&& *final(current_validator_set) == *old(current_validator_set)
                &&& *final(preparing_validator_set) == *old(preparing_validator_set)
            },
            round > old(epoch_manager).round && round >= old(epoch_manager).rounds_per_epoch ==> {
                &&& r is Ok
                &&& final(epoch_manager).epoch == old(preparing_validator_set).epoch
                &&& final(epoch_manager).round == 0
                &&& final(current_validator_set).epoch == old(preparing_validator_set).epoch
                &&& validator_sets_alike(old(preparing_validator_set).validator_set@,
                    final(current_validator_set).validator_set@)
                &&& final(preparing_validator_set).epoch == old(preparing_validator_set).epoch + 1
                &&& validator_sets_alike(old(preparing_validator_set).validator_set@,
                    final(preparing_validator_set).validator_set@)
            },
            final(epoch_manager).rounds_per_epoch == old(epoch_manager).rounds_per_epoch,
            final(epoch_manager).num_unstake_epochs == old(epoch_manager).num_unstake_epochs,
            final(epoch_manager).address == old(epoch_manager).address,
    {
        if round <= epoch_manager.round {
            return Err(RuntimeError::ApplicationError(ApplicationError::EpochManagerError(
                EpochManagerError::InvalidRoundUpdate { from: epoch_manager.round, to: round },
            )));
        }

        if round >= epoch_manager.rounds_per_epoch {
            let prepared_epoch = preparing_validator_set.epoch;
            let next_validator_set = duplicate_validator_set(
                &preparing_validator_set.validator_set,
            );
            preparing_validator_set.epoch = prepared_epoch + 1;

            epoch_manager.epoch = prepared_epoch;
            epoch_manager.round = 0;

            current_validator_set.epoch = prepared_epoch;
            current_validator_set.validator_set = next_validator_set;
        } else {
            epoch_manager.round = round;
        }

        Ok(())
    }

    /// Reads the manager address under which a new validator is created.
    pub fn create_validator(epoch_manager: &EpochManagerSubstate) -> (r: ComponentAddress)
        ensures
            r.entity_type() == epoch_manager.address.entity_type(),
            r.payload() == epoch_manager.address.payload(),
    {
        epoch_manager.address.duplicate()
    }

    /// Registers or unregisters a validator in the preparing set.
    pub fn update_validator(
        validator_set: &mut ValidatorSetSubstate,
        validator_address: ComponentAddress,
        update: UpdateValidator,
    )
        ensures
            final(validator_set).epoch == old(validator_set).epoch,
            match update {
                UpdateValidator::Register(key, stake) => {
                    match spec_find_validator(old(validator_set).validator_set@,
                        &validator_address) {
                        Some(i) => {
                            &&& final(validator_set).validator_set@.len() == old(
                                validator_set).validator_set@.len()
                            &&& (forall|j: int|
                                0 <= j < old(validator_set).validator_set@.len() && j != i
                                    ==> final(validator_set).validator_set@[j] == old(
                                    validator_set).validator_set@[j])
                            &&& final(validator_set).validator_set@[i].1.key@ == key@
                            &&& final(validator_set).validator_set@[i].1.stake == stake
                            &&& final(validator_set).validator_set@[i].0.entity_type()
                                == validator_address.entity_type()
                            &&& final(validator_set).validator_set@[i].0.payload()
                                == validator_address.payload()
                        },
                        None => {
                            &&& final(validator_set).validator_set@.len() == old(
                                validator_set).validator_set@.len() + 1
                            &&& (forall|j: int|
                                0 <= j < old(validator_set).validator_set@.len() ==> final(
                                    validator_set).validator_set@[j] == old(
                                    validator_set).validator_set@[j])
                            &&& final(validator_set).validator_set@.last().1.key@ == key@
                            &&& final(validator_set).validator_set@.last().1.stake == stake
                            &&& final(validator_set).validator_set@.last().0.entity_type()
                                == validator_address.entity_type()
                            &&& final(validator_set).validator_set@.last().0.payload()
                                == validator_address.payload()
                        },
                    }
                },
                UpdateValidator::Unregister => {
                    match spec_find_validator(old(validator_set).validator_set@,
                        &validator_address) {
                        Some(i) => final(validator_set).validator_set@ == old(
                            validator_set).validator_set@.remove(i),
                        None => final(validator_set).validator_set@ == old(
                            validator_set).validator_set@,
                    }
                },
            },
    {
        let found = find_validator(&validator_set.validator_set, &validator_address);
        match update {
            UpdateValidator::Register(key, stake) => {
                match found {
                    Some(i) => {
                        let ghost mid = validator_set.validator_set@;
                        let mut entry = validator_set.validator_set.remove(i);
                        entry.1 = Validator { key, stake };
                        validator_set.validator_set.insert(i, entry);
                        proof {
                            assert(validator_set.validator_set@ =~= mid.update(
                                i as int,
                                validator_set.validator_set@[i as int],
                            ));
                        }
                    }
                    None => {
                        validator_set.validator_set.push(
                            (validator_address, Validator { key, stake }),
                        );
                    }
                }
            }
            UpdateValidator::Unregister => {
                match found {
                    Some(i) => {
                        let _ = validator_set.validator_set.remove(i);
                    }
                    None => {}
                }
            }
        }
    }
}

/// A copy of a validator set with the same addresses, keys and stakes.
pub fn duplicate_validator_set(s: &Vec<(ComponentAddress, Validator)>) -> (r: Vec<
    (ComponentAddress, Validator),
>)
    ensures
        validator_sets_alike(s@, r@),
{
    let mut out: Vec<(ComponentAddress, Validator)> = Vec::new();
    let mut i: usize = 0;
    while i < s.len()
        invariant
            i <= s@.len(),
            out@.len() == i,
            forall|j: int|
                0 <= j < i ==> {
                    &&& (#[trigger] out@[j]).0.entity_type() == s@[j].0.entity_type()
                    &&& out@[j].0.payload() == s@[j].0.payload()
                    &&& out@[j].1.key@ == s@[j].1.key@
                    &&& out@[j].1.stake == s@[j].1.stake
                },
        decreases s@.len() - i,
    {
        let addr = s[i].0.duplicate();
        let key = s[i].1.key.clone();
        proof {
            assert(key@ =~= s@[i as int].1.key@);
        }
        out.push((addr, Validator { key, stake: s[i].1.stake }));
        i = i + 1;
    }
    out
}

/// Index of the validator with the given address.
fn find_validator(s: &Vec<(ComponentAddress, Validator)>, a: &ComponentAddress) -> (r: Option<
    usize,
>)
    ensures
        match r {
            Some(i) => i < s@.len() && spec_find_validator(s@, a) == Some(i as int)
                && s@[i as int].0.entity_type() == a.entity_type() && s@[i as int].0.payload()
                == a.payload(),
            None => spec_find_validator(s@, a) is None,
        },
{
    let mut i: usize = 0;
    while i < s.len()
        invariant
            i <= s@.len(),
            forall|j: int|
                0 <= j < i ==> !((#[trigger] s@[j]).0.entity_type() == a.entity_type() && s@[j]
                    .0.payload() == a.payload()),
        decreases s@.len() - i,
    {
        if component_address_eq(&s[i].0, a) {
            proof {
                lemma_find_validator_first(s@, a, i as int);
            }
            return Some(i);
        }
        i = i + 1;
    }
    proof {
        lemma_find_validator_none(s@, a);
    }
    None
}

proof fn lemma_find_validator_first(s: Seq<(ComponentAddress, Validator)>, a: &ComponentAddress, i: int)
    requires
        0 <= i < s.len(),
        s[i].0.entity_type() == a.entity_type() && s[i].0.payload() == a.payload(),
        forall|j: int|
            0 <= j < i ==> !((#[trigger] s[j]).0.entity_type() == a.entity_type() && s[j]
                .0.payload() == a.payload()),
    ensures
        spec_find_validator(s, a) == Some(i),
    decreases i,
{
    if i > 0 {
        lemma_find_validator_first(s.drop_first(), a, i - 1);
    }
}

proof fn lemma_find_validator_none(s: Seq<(ComponentAddress, Validator)>, a: &ComponentAddress)
    requires
        forall|j: int|
            0 <= j < s.len() ==> !((#[trigger] s[j]).0.entity_type() == a.entity_type() && s[j]
                .0.payload() == a.payload()),
    ensures
        spec_find_validator(s, a) is None,
    decreases s.len(),
{
    if s.len() > 0 {
        lemma_find_validator_none(s.drop_first(), a);
    }
}

} // verus!

verus! {

/// The resource under which system badges are issued.
pub open spec fn spec_system_token() -> Seq<u8> {
    seq![2u8]
}

/// The resource under which package badges are issued.
pub open spec fn spec_package_token() -> Seq<u8> {
    seq![3u8]
}

/// The badge the system transaction carries.
pub fn system_role_badge() -> (r: NonFungibleGlobalId)
    ensures
        r.resource_address@ == spec_system_token(),
        r.local_id@ == seq![0u8],
{
    let mut res: Vec<u8> = Vec::new();
    res.push(2u8);
    let mut local: Vec<u8> = Vec::new();
    local.push(0u8);
    proof {
        assert(res@ =~= seq![2u8]);
        assert(local@ =~= seq![0u8]);
    }
    NonFungibleGlobalId { resource_address: ResourceAddress(res), local_id: local }
}

/// The badge a validator's round proposal carries.
pub fn validator_role_badge() -> (r: NonFungibleGlobalId)
    ensures
        r.resource_address@ == spec_system_token(),
        r.local_id@ == seq![1u8],
{
    let mut res: Vec<u8> = Vec::new();
    res.push(2u8);
    let mut local: Vec<u8> = Vec::new();
    local.push(1u8);
    proof {
        assert(res@ =~= seq![2u8]);
        assert(local@ =~= seq![1u8]);
    }
    NonFungibleGlobalId { resource_address: ResourceAddress(res), local_id: local }
}

/// An access rule demanding one non-fungible badge.
fn require_badge(badge: NonFungibleGlobalId) -> (r: AccessRule)
    ensures
        r matches AccessRule::Protected(node) && node matches AccessRuleNode::ProofRule(p) && p
            matches ProofRule::Require(x) && x matches ResourceOrNonFungible::NonFungible(nf)
            && nf.resource_address@ == badge.resource_address@ && nf.local_id@ == badge.local_id@,
{
    AccessRule::Protected(AccessRuleNode::ProofRule(ProofRule::Require(
        ResourceOrNonFungible::NonFungible(badge),
    )))
}

impl EpochManagerNativePackage {
    /// The authorization demanded of the manager's own creation: the system
    /// badge.
    pub fn create_auth() -> (r: Vec<AccessRule>)
        ensures
            r@.len() == 1,
            r@[0] matches AccessRule::Protected(node) && node matches AccessRuleNode::ProofRule(p)
                && p matches ProofRule::Require(x) && x matches
                ResourceOrNonFungible::NonFungible(nf) && nf.resource_address@
                == spec_system_token() && nf.local_id@ == seq![0u8],
    {
        let mut out: Vec<AccessRule> = Vec::new();
        out.push(require_badge(system_role_badge()));
        out
    }

    /// Builds the manager's substates and its method access rules. The
    /// validators were already instantiated by the caller, one kernel
    /// invocation each; here their set becomes both the current set at the
    /// initial epoch and the preparing set one epoch ahead.
    pub fn create(
        component_address: Vec<u8>,
        initial_epoch: u64,
        rounds_per_epoch: u64,
        num_unstake_epochs: u64,
        validators: Vec<(ComponentAddress, Validator)>,
    ) -> (r: (EpochManagerSubstate, ValidatorSetSubstate, ValidatorSetSubstate, Vec<
        (String, AccessRule),
    >))
        requires
            initial_epoch < u64::MAX,
        ensures
            ({
                let (mgr, current, preparing, rules) = r;
                &&& mgr.address is EpochManager && mgr.address.payload() == component_address@
                &&& mgr.epoch == initial_epoch
                &&& mgr.round == 0
                &&& mgr.rounds_per_epoch == rounds_per_epoch
                &&& mgr.num_unstake_epochs == num_unstake_epochs
                &&& current.epoch == initial_epoch
                &&& validator_sets_alike(validators@, current.validator_set@)
                &&& preparing.epoch == initial_epoch + 1
                &&& validator_sets_alike(validators@, preparing.validator_set@)
                &&& rules@.len() == 5
                &&& rules@[0].0@ == EPOCH_MANAGER_NEXT_ROUND_IDENT@
                &&& (rules@[0].1 matches AccessRule::Protected(node) && node matches
                    AccessRuleNode::ProofRule(p) && p matches ProofRule::Require(x) && x matches
                    ResourceOrNonFungible::NonFungible(nf) && nf.resource_address@
                    == spec_system_token() && nf.local_id@ == seq![1u8])
                &&& rules@[1].0@ == EPOCH_MANAGER_GET_CURRENT_EPOCH_IDENT@
                &&& rules@[1].1 is AllowAll
                &&& rules@[2].0@ == EPOCH_MANAGER_CREATE_VALIDATOR_IDENT@
                &&& rules@[2].1 is AllowAll
                &&& rules@[3].0@ == EPOCH_MANAGER_UPDATE_VALIDATOR_IDENT@
                &&& (rules@[3].1 matches AccessRule::Protected(node) && node matches
                    AccessRuleNode::ProofRule(p) && p matches ProofRule::Require(x) && x matches
                    ResourceOrNonFungible::NonFungible(nf) && nf.resource_address@
                    == spec_package_token())
                &&& rules@[4].0@ == EPOCH_MANAGER_SET_EPOCH_IDENT@
                &&& (rules@[4].1 matches AccessRule::Protected(node) && node matches
                    AccessRuleNode::ProofRule(p) && p matches ProofRule::Require(x) && x matches
                    ResourceOrNonFungible::NonFungible(nf) && nf.resource_address@
                    == spec_system_token() && nf.local_id@ == seq![0u8])
            }),
    {
        let epoch_manager = EpochManagerSubstate {
            address: ComponentAddress::EpochManager(component_address),
            epoch: initial_epoch,
            round: 0,
            rounds_per_epoch,
            num_unstake_epochs,
        };

        let current_validator_set = ValidatorSetSubstate {
            epoch: initial_epoch,
            validator_set: duplicate_validator_set(&validators),
        };
        let preparing_validator_set = ValidatorSetSubstate {
            epoch: initial_epoch + 1,
            validator_set: duplicate_validator_set(&validators),
        };

        let mut package_token_res: Vec<u8> = Vec::new();
        package_token_res.push(3u8);
        let mut package_local: Vec<u8> = Vec::new();
        package_local.push(9u8);
        proof {
            assert(package_token_res@ =~= seq![3u8]);
        }
        let package_badge = NonFungibleGlobalId {
            resource_address: ResourceAddress(package_token_res),
            local_id: package_local,
        };

        let mut access_rules: Vec<(String, AccessRule)> = Vec::new();
        access_rules.push(
            (
                EPOCH_MANAGER_NEXT_ROUND_IDENT.to_owned(),
                require_badge(validator_role_badge()),
            ),
        );
        access_rules.push((EPOCH_MANAGER_GET_CURRENT_EPOCH_IDENT.to_owned(), AccessRule::AllowAll));
        access_rules.push((EPOCH_MANAGER_CREATE_VALIDATOR_IDENT.to_owned(), AccessRule::AllowAll));
        access_rules.push(
            (EPOCH_MANAGER_UPDATE_VALIDATOR_IDENT.to_owned(), require_badge(package_badge)),
        );
        access_rules.push(
            (EPOCH_MANAGER_SET_EPOCH_IDENT.to_owned(), require_badge(system_role_badge())),
        );

        (epoch_manager, current_validator_set, preparing_validator_set, access_rules)
    }
}

} // verus!
