use radix_engine::costing::{CostingEntry, FeeTable};
use radix_engine::hrp::{EntityType, HrpSet, NetworkDefinition};
use radix_engine::schema::{LocalTypeIndex, ReceiverInfo, TypeRef};
use radix_engine::system::{
    auto_drop_plan, on_persist_node, on_substate_lock_fault, BlueprintDefinition, BlueprintHook,
    FunctionSchema, SystemConfig, SystemLockData, SystemUpstreamError, TransientNodeKind,
    TypeInfoKind, VirtualizationTarget,
};
use radix_engine::transaction::{
    AutoMove, IdAllocator, Instruction, NotarizedTransaction, ProcessorError, ScryptoValue,
    SignedTransactionIntent, TransactionHeader, TransactionIntent, TransactionManifest,
    TransactionProcessor, ValidatedTransaction,
};

fn fee_table() -> FeeTable {
    FeeTable {
        tx_base_cost: 10,
        tx_payload_cost_per_byte: 2,
        tx_signature_verification_cost_per_sig: 100,
        run_native_code_cost_per_byte: 1,
        run_wasm_code_cost_per_unit: 1,
        instantiate_wasm_code_cost_per_byte: 1,
        before_invoke_cost_per_byte: 1,
        after_invoke_cost_per_byte: 1,
        allocate_node_id_cost: 5,
        create_node_cost_per_byte: 1,
        drop_node_cost_per_byte: 1,
        move_modules_cost: 3,
        open_substate_cost_per_byte: 1,
        read_substate_cost_per_byte: 1,
        write_substate_cost_per_byte: 1,
        close_substate_cost: 1,
        set_substate_cost_per_byte: 1,
        remove_substate_base_cost: 1,
        scan_substates_base_cost: 1,
        scan_sorted_substates_base_cost: 1,
        take_substates_base_cost: 1,
        store_access_cost_per_access: 1,
        store_commit_cost_per_byte: 1,
        lock_fee_cost: 7,
        query_fee_reserve_cost: 1,
        query_actor_cost: 1,
        query_auth_zone_cost: 1,
        assert_access_rule_cost: 1,
        query_transaction_hash_cost: 1,
        generate_ruid_cost: 1,
        emit_event_cost_per_byte: 1,
        emit_log_cost_per_byte: 1,
        panic_cost_per_byte: 1,
    }
}

#[test]
fn costing_prices_by_the_fee_table() {
    let ft = fee_table();
    assert_eq!(CostingEntry::TxBaseCost.to_cost_units(&ft), 10);
    assert_eq!(CostingEntry::TxPayloadCost { size: 6 }.to_cost_units(&ft), 12);
    assert_eq!(
        CostingEntry::TxSignatureVerification { num_signatures: 3 }.to_cost_units(&ft),
        300
    );
    assert_eq!(CostingEntry::LockFee.to_cost_units(&ft), 7);
    assert_eq!(CostingEntry::AuthModule { direct_charge: 55 }.to_cost_units(&ft), 55);
    // The price is clamped at the cost-unit ceiling.
    let huge = CostingEntry::TxSignatureVerification { num_signatures: usize::MAX };
    assert_eq!(huge.to_cost_units(&ft), u32::MAX);
}

#[test]
fn trace_keys_carry_the_export_name() {
    let entry = CostingEntry::RunNativeCode {
        package_address: vec![1],
        export_name: "create".to_string(),
        input_size: 0,
    };
    assert_eq!(entry.to_trace_key(), "RunNativeCode::create");
    assert_eq!(CostingEntry::LockFee.to_trace_key(), "LockFee");

    // Substate-open and commit keys carry the node's entity-type name, or a
    // question mark when the tag byte is unknown.
    let open = CostingEntry::OpenSubstate { node_id: vec![0], value_size: 1 };
    assert_eq!(open.to_trace_key(), "OpenSubstate::GlobalPackage");
    let commit = CostingEntry::Commit { node_id: vec![200], size: 1 };
    assert_eq!(commit.to_trace_key(), "Commit::?");
    let empty = CostingEntry::OpenSubstate { node_id: vec![], value_size: 1 };
    assert_eq!(empty.to_trace_key(), "OpenSubstate::?");
}

#[test]
fn hrp_set_prefixes_follow_the_network_suffix() {
    let network = NetworkDefinition {
        id: 1,
        logical_name: "simulator".to_string(),
        hrp_suffix: "sim".to_string(),
    };
    let set = HrpSet::from(&network);
    assert_eq!(set.get_entity_hrp(&EntityType::GlobalAccount), "account_sim");
    assert_eq!(
        set.get_entity_hrp(&EntityType::GlobalVirtualSecp256k1Account),
        "account_sim"
    );
    assert_eq!(set.get_entity_hrp(&EntityType::GlobalPackage), "package_sim");
    assert_eq!(
        set.get_entity_hrp(&EntityType::InternalKeyValueStore),
        "internal_keyvaluestore_sim"
    );
}

fn definition() -> BlueprintDefinition {
    BlueprintDefinition {
        functions: vec![
            (
                "create".to_string(),
                FunctionSchema {
                    receiver: None,
                    input: LocalTypeIndex::WellKnown(1),
                    output: LocalTypeIndex::WellKnown(2),
                    export: "Package_create".to_string(),
                },
            ),
            (
                "lock_fee".to_string(),
                FunctionSchema {
                    receiver: Some(ReceiverInfo::normal_ref_mut()),
                    input: LocalTypeIndex::WellKnown(1),
                    output: LocalTypeIndex::WellKnown(2),
                    export: "Vault_lock_fee".to_string(),
                },
            ),
        ],
        hook_exports: vec![(BlueprintHook::OnVirtualize, "on_virtualize".to_string())],
        is_transient: false,
    }
}

#[test]
fn invoke_upstream_resolves_exports_and_checks_receivers() {
    let def = definition();
    assert_eq!(
        SystemConfig::invoke_upstream(&def, "create", false, false)
            .unwrap()
            .as_str(),
        "Package_create"
    );
    assert!(matches!(
        SystemConfig::invoke_upstream(&def, "create", true, false),
        Err(SystemUpstreamError::ReceiverNotMatch(_))
    ));
    assert_eq!(
        SystemConfig::invoke_upstream(&def, "lock_fee", true, false)
            .unwrap()
            .as_str(),
        "Vault_lock_fee"
    );
    assert!(matches!(
        SystemConfig::invoke_upstream(&def, "lock_fee", true, true),
        Err(SystemUpstreamError::ReceiverNotMatch(_))
    ));
    assert!(matches!(
        SystemConfig::invoke_upstream(&def, "missing", false, false),
        Err(SystemUpstreamError::FnNotFound(_))
    ));
}

#[test]
fn hooks_resolve_only_when_exported() {
    let def = definition();
    assert_eq!(
        SystemConfig::resolve_hook(&def, BlueprintHook::OnVirtualize)
            .unwrap()
            .as_str(),
        "on_virtualize"
    );
    assert!(matches!(
        SystemConfig::resolve_hook(&def, BlueprintHook::OnDrop),
        Err(SystemUpstreamError::HookNotFound(BlueprintHook::OnDrop))
    ));
}

#[test]
fn auto_drop_plans_every_proof_and_nothing_else() {
    let nodes = vec![
        (vec![1], TransientNodeKind::Other),
        (vec![2], TransientNodeKind::FungibleProof),
        (vec![3], TransientNodeKind::NonFungibleProof),
        (vec![4], TransientNodeKind::Other),
    ];
    let plan = auto_drop_plan(&nodes);
    assert_eq!(plan, vec![1, 2]);
}

#[test]
fn lock_faults_virtualize_only_virtual_addresses() {
    assert_eq!(
        on_substate_lock_fault(EntityType::GlobalVirtualSecp256k1Account),
        Some(VirtualizationTarget::Account { variant_id: 0 })
    );
    assert_eq!(
        on_substate_lock_fault(EntityType::GlobalVirtualEd25519Identity),
        Some(VirtualizationTarget::Identity { variant_id: 1 })
    );
    assert_eq!(on_substate_lock_fault(EntityType::GlobalAccount), None);
}

#[test]
fn persistence_follows_the_type_info() {
    assert!(on_persist_node(Some(TypeInfoKind::KeyValueStore)));
    assert!(on_persist_node(Some(TypeInfoKind::Object { transient_blueprint: false })));
    assert!(!on_persist_node(Some(TypeInfoKind::Object { transient_blueprint: true })));
    assert!(!on_persist_node(Some(TypeInfoKind::GlobalAddressReservation)));
    assert!(!on_persist_node(None));
}

#[test]
fn lock_data_knows_its_kind() {
    let data = SystemLockData::default();
    assert!(!data.is_kv_entry());
}

#[test]
fn type_refs_map_only_blueprint_slots() {
    let blueprint = TypeRef::Blueprint(3u8);
    assert_eq!(blueprint.map(|v: u8| v + 1), TypeRef::Blueprint(4u8));
    let instance: TypeRef<u8> = TypeRef::Instance(7);
    assert_eq!(instance.map(|v: u8| v + 1), TypeRef::<u8>::Instance(7));
}

fn transaction() -> ValidatedTransaction {
    ValidatedTransaction {
        transaction: NotarizedTransaction {
            signed_intent: SignedTransactionIntent {
                intent: TransactionIntent {
                    header: TransactionHeader {
                        nonce: 1,
                        start_epoch_inclusive: 0,
                        end_epoch_exclusive: 10,
                        cost_unit_limit: 1_000_000,
                        tip_percentage: 5,
                    },
                    manifest: TransactionManifest { instructions: vec![], blobs: vec![vec![9]] },
                },
                intent_signatures: vec![],
            },
            notary_signature: vec![],
        },
        transaction_hash: radix_engine::transaction::Hash(vec![0xAA; 32]),
        instructions: vec![Instruction::PopFromAuthZone],
        initial_proofs: vec![],
    }
}

#[test]
fn validated_transaction_exposes_its_header() {
    let txn = transaction();
    assert_eq!(txn.cost_unit_limit(), 1_000_000);
    assert_eq!(txn.tip_percentage(), 5);
    assert_eq!(txn.transaction_hash().0, vec![0xAA; 32]);
    assert_eq!(txn.blobs().len(), 1);
    assert_eq!(txn.instructions().len(), 1);
    assert_eq!(txn.initial_proofs().len(), 0);
}

#[test]
fn processor_remaps_manifest_ids() {
    let mut processor = TransactionProcessor::new(transaction());
    processor.record_bucket(0, 512);
    processor.record_proof(0, 768);
    let arg = ScryptoValue { raw: vec![1, 2], bucket_ids: vec![0], proof_ids: vec![0] };
    let replaced = processor.replace_ids(arg).unwrap();
    assert_eq!(replaced.raw, vec![1, 2]);
    assert_eq!(replaced.bucket_ids, vec![512]);
    assert_eq!(replaced.proof_ids, vec![768]);

    let unknown = ScryptoValue { raw: vec![], bucket_ids: vec![9], proof_ids: vec![] };
    assert!(matches!(
        processor.replace_ids(unknown),
        Err(ProcessorError::BucketNotFound(9))
    ));
}

#[test]
fn processor_consumes_ids_it_hands_out() {
    let mut processor = TransactionProcessor::new(transaction());
    processor.record_bucket(3, 512);
    assert_eq!(processor.take_bucket(3), Ok(512));
    assert_eq!(processor.take_bucket(3), Err(ProcessorError::BucketNotFound(3)));
    processor.record_proof(4, 768);
    processor.clear_proofs();
    assert_eq!(processor.take_proof(4), Err(ProcessorError::ProofNotFound(4)));
    processor.record_output(ScryptoValue { raw: vec![7], bucket_ids: vec![], proof_ids: vec![] });
    assert_eq!(processor.outputs().len(), 1);
}

#[test]
fn id_allocator_hands_out_consecutive_ids() {
    let mut allocator = IdAllocator::new();
    assert_eq!(allocator.new_bucket_id(), Ok(0));
    assert_eq!(allocator.new_bucket_id(), Ok(1));
    assert_eq!(allocator.new_proof_id(), Ok(0));
}

#[test]
fn returned_resources_move_to_the_auth_zone_and_worktop() {
    let result = ScryptoValue { raw: vec![], bucket_ids: vec![30, 31], proof_ids: vec![40] };
    let moves = TransactionProcessor::auto_move_requests(&result);
    assert_eq!(
        moves,
        vec![
            AutoMove::PushToAuthZone { proof_id: 40 },
            AutoMove::PutOnWorktop { bucket_id: 30 },
            AutoMove::PutOnWorktop { bucket_id: 31 },
        ]
    );
}
