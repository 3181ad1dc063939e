use radix_engine::decode::{Decode, DecodeError, Decoder};
use radix_engine::identity::{Identity, IdentityNativePackage};
use radix_engine::auth::AccessRule;
use radix_engine::kernel::{CallFrameUpdate, GlobalAddressSubstate, KernelInvocation, RENodeId};
use radix_engine::proofs::{
    ProofCloneInvocation, ProofGetAmountInvocation, ProofGetNonFungibleIdsInvocation,
    ProofGetResourceAddressInvocation, ProofError, ProofSubstate,
};
use radix_engine::runtime::{
    Actor, BadgeLedger, BadgesRef, ComponentRef, Context, DataPointer, PackageRef,
    RuntimeContext, SubstateOffset,
};

fn proof_substate() -> ProofSubstate {
    ProofSubstate {
        resource_address: vec![1u8; 27],
        is_fungible: false,
        total_amount: 2,
        non_fungible_ids: vec![vec![7], vec![8]],
    }
}

#[test]
fn proof_invocations_read_the_substate() {
    let substate = proof_substate();

    let amount_inv = ProofGetAmountInvocation { receiver: vec![5; 27] };
    let (actor, update) = ProofGetAmountInvocation { receiver: vec![5; 27] }.resolve();
    assert_eq!(actor.receiver, vec![5; 27]);
    assert_eq!(update.node_refs_to_copy, vec![vec![5; 27]]);
    assert_eq!(amount_inv.execute(&substate), 2);

    let ids = ProofGetNonFungibleIdsInvocation { receiver: vec![5; 27] }
        .execute(&substate)
        .unwrap();
    assert_eq!(ids, vec![vec![7], vec![8]]);

    let fungible = ProofSubstate { is_fungible: true, ..proof_substate() };
    assert!(matches!(
        ProofGetNonFungibleIdsInvocation { receiver: vec![5; 27] }.execute(&fungible),
        Err(ProofError::NonFungibleOperationNotAllowed)
    ));

    let (resource, update) =
        ProofGetResourceAddressInvocation { receiver: vec![5; 27] }.execute(&substate);
    assert_eq!(resource, vec![1u8; 27]);
    assert_eq!(update.node_refs_to_copy, vec![vec![1u8; 27]]);

    let (cloned, update) =
        ProofCloneInvocation { receiver: vec![5; 27] }.execute(&substate, vec![6; 27]);
    assert_eq!(cloned.total_amount, 2);
    assert_eq!(cloned.non_fungible_ids, vec![vec![7], vec![8]]);
    assert_eq!(update.nodes_to_move, vec![vec![6; 27]]);
}

#[test]
fn global_addresses_deref_to_their_nodes() {
    let global = GlobalAddressSubstate::Resource(vec![3; 26]);
    assert!(matches!(global.node_deref(), RENodeId::ResourceManager(v) if v == vec![3; 26]));
    let invocation = KernelInvocation {
        executor: 0u8,
        update: CallFrameUpdate::move_node(vec![1]),
        args: vec![],
    };
    assert_eq!(invocation.get_update().nodes_to_move, vec![vec![1]]);
}

#[test]
fn identity_create_guards_metadata_with_the_rule() {
    let (node_id, rules) = Identity::create(AccessRule::AllowAll, vec![2; 27]);
    assert_eq!(node_id, vec![2; 27]);
    assert_eq!(rules.rules.len(), 2);
    assert_eq!(rules.rules[0].ident, "set");
    assert_eq!(rules.rules[1].ident, "get");
    assert!(matches!(rules.rules[1].rule, AccessRule::AllowAll));
    assert!(matches!(rules.rules[1].mutability, AccessRule::DenyAll));

    assert!(IdentityNativePackage::invoke_export("create", false).is_ok());
    assert!(IdentityNativePackage::invoke_export("create", true).is_err());
    match IdentityNativePackage::invoke_export("other", false) {
        Err(radix_engine::epoch_manager::RuntimeError::InterpreterError(
            radix_engine::epoch_manager::InterpreterError::NativeExportDoesNotExist(name),
        )) => assert_eq!(name, "other"),
        other => panic!("unexpected result: {:?}", other),
    }
}

#[test]
fn context_reads_the_runtime_and_builds_calls() {
    let mut ctx = RuntimeContext {
        actor: Actor::Component(
            ComponentRef(vec![1; 27]),
            PackageRef(vec![2; 27]),
            "Faucet".to_string(),
        ),
        transaction_hash: vec![0xCC; 32],
        current_epoch: 11,
        uuid_counter: 40,
    };
    assert_eq!(Context::package(&ctx).0, vec![2; 27]);
    assert_eq!(Context::transaction_hash(&ctx), vec![0xCC; 32]);
    assert_eq!(Context::current_epoch(&ctx), 11);
    assert_eq!(Context::generate_uuid(&mut ctx), 40);
    assert_eq!(Context::generate_uuid(&mut ctx), 41);

    let call = Context::call_function(
        PackageRef(vec![2; 27]),
        "Blueprint",
        "new",
        vec![vec![1, 2]],
    );
    assert_eq!(call.blueprint_name, "Blueprint");
    assert_eq!(call.function, "new");
    let method = Context::call_method(ComponentRef(vec![1; 27]), "free_xrd", vec![]);
    assert_eq!(method.method, "free_xrd");
}

#[test]
fn data_pointer_decodes_through_the_envelope() {
    // A u32 with its type byte, wrapped as the payload of a key-value entry:
    // Option tag 1, then a byte vector holding the encoded value.
    let inner = vec![9u8, 5, 0, 0, 0];
    let mut raw = vec![13u8, 1];
    raw.push(15);
    raw.push(inner.len() as u8);
    raw.push(0);
    raw.push(7);
    raw.extend(&inner);

    let pointer: DataPointer<u32> =
        DataPointer::new(vec![1; 27], SubstateOffset::KeyValueStoreEntry(vec![4]));
    let data = pointer.get(3, &raw).unwrap();
    assert_eq!(data.lock_handle, 3);
    assert_eq!(*data.value(), 5);

    // An absent entry refuses the read.
    let empty = vec![13u8, 0];
    assert!(pointer.get(3, &empty).is_err());

    // A generic offset decodes the value directly.
    let direct: DataPointer<u32> = DataPointer::new(vec![1; 27], SubstateOffset::Generic(0));
    let value = direct.get(8, &inner).unwrap();
    assert_eq!(*value.value(), 5);

    let mut data_mut = direct.get_mut(8, &inner).unwrap();
    data_mut.set_value(6);
    assert_eq!(*data_mut.value(), 6);
}

#[test]
fn badges_follow_the_ledger() {
    let mut ledger = BadgeLedger { entries: vec![(10, vec![1; 27], 250), (11, vec![2; 27], 1)] };
    let badge = BadgesRef::from(10);
    assert_eq!(badge.amount(&ledger), Some(250));
    assert_eq!(badge.resource(&ledger), Some(vec![1; 27]));
    badge.destroy(&mut ledger);
    assert_eq!(ledger.entries.len(), 1);
    assert_eq!(BadgesRef::from(10).amount(&ledger), None);
}

#[test]
fn decoder_checks_names() {
    // "ab" as a string header plus its bytes, with metadata.
    let bytes = vec![12u8, 2, 0, 97, 98];
    let mut dec = Decoder::with_metadata(&bytes);
    dec.check_name("ab").unwrap();
    assert_eq!(dec.remaining(), 0);

    let mut dec2 = Decoder::with_metadata(&bytes);
    assert!(matches!(
        dec2.check_name("cd"),
        Err(DecodeError::InvalidName { .. })
    ));

    // Without metadata nothing is read.
    let mut dec3 = Decoder::no_metadata(&bytes);
    dec3.check_name("whatever").unwrap();
    assert_eq!(dec3.remaining(), bytes.len());
}

#[test]
fn decoder_reports_exact_errors() {
    let bytes = vec![1u8, 2];
    let mut dec = Decoder::no_metadata(&bytes);
    assert_eq!(<bool as Decode>::decode(&mut dec).unwrap(), true);
    assert!(matches!(
        <bool as Decode>::decode(&mut dec),
        Err(DecodeError::InvalidBool(2))
    ));
    assert!(matches!(
        dec.read_u8(),
        Err(DecodeError::Underflow { required: 1, remaining: 0 })
    ));

    let typed = vec![9u8, 1, 0, 0, 0];
    let mut dec2 = Decoder::with_metadata(&typed);
    assert!(matches!(
        <u64 as Decode>::decode(&mut dec2),
        Err(DecodeError::InvalidType { expected: 10, actual: 9 })
    ));
}
