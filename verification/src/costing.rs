//! Costing: every metered operation maps to a number of cost units through
//! the fee table, and to a stable key under which execution traces group it.

use vstd::prelude::*;

verus! {

use vstd::string::StringExecFns;

/// Fixed per-operation prices and per-byte multipliers. The table is plain
/// data; every cost below is an exact function of it.
#[derive(Debug, Clone, PartialEq, Eq, Structural)]
pub struct FeeTable {
    pub tx_base_cost: u32,
    pub tx_payload_cost_per_byte: u32,
    pub tx_signature_verification_cost_per_sig: u32,
    pub run_native_code_cost_per_byte: u32,
    pub run_wasm_code_cost_per_unit: u32,
    pub instantiate_wasm_code_cost_per_byte: u32,
    pub before_invoke_cost_per_byte: u32,
    pub after_invoke_cost_per_byte: u32,
    pub allocate_node_id_cost: u32,
    pub create_node_cost_per_byte: u32,
    pub drop_node_cost_per_byte: u32,
    pub move_modules_cost: u32,
    pub open_substate_cost_per_byte: u32,
    pub read_substate_cost_per_byte: u32,
    pub write_substate_cost_per_byte: u32,
    pub close_substate_cost: u32,
    pub set_substate_cost_per_byte: u32,
    pub remove_substate_base_cost: u32,
    pub scan_substates_base_cost: u32,
    pub scan_sorted_substates_base_cost: u32,
    pub take_substates_base_cost: u32,
    pub store_access_cost_per_access: u32,
    pub store_commit_cost_per_byte: u32,
    pub lock_fee_cost: u32,
    pub query_fee_reserve_cost: u32,
    pub query_actor_cost: u32,
    pub query_auth_zone_cost: u32,
    pub assert_access_rule_cost: u32,
    pub query_transaction_hash_cost: u32,
    pub generate_ruid_cost: u32,
    pub emit_event_cost_per_byte: u32,
    pub emit_log_cost_per_byte: u32,
    pub panic_cost_per_byte: u32,
}

/// `size * rate`, clamped at the cost-unit ceiling.
pub open spec fn spec_scaled(size: nat, rate: u32) -> u32 {
    if size * rate > u32::MAX {
        u32::MAX
    } else {
        (size * rate) as u32
    }
}

/// `size * rate`, clamped at the cost-unit ceiling.
pub fn scaled_cost(size: usize, rate: u32) -> (r: u32)
    ensures
        r == spec_scaled(size as nat, rate),
{
    proof {
        assert((size as u128) * (rate as u128) < 0x1_0000_0000_0000_0000_0000_0000u128)
            by (nonlinear_arith)
            requires
                size as u128 <= 0xffff_ffff_ffff_ffffu128,
                rate as u128 <= 0xffff_ffffu128,
        ;
    }
    let wide: u128 = (size as u128) * (rate as u128);
    if wide > 0xffff_ffff {
        u32::MAX
    } else {
        wide as u32
    }
}

/// One metered operation, with what the fee table prices it by.
#[derive(Debug)]
pub enum CostingEntry {
    TxBaseCost,
    TxPayloadCost { size: usize },
    TxSignatureVerification { num_signatures: usize },
    RunNativeCode { package_address: Vec<u8>, export_name: String, input_size: usize },
    RunWasmCode { package_address: Vec<u8>, export_name: String, wasm_execution_units: u32 },
    PrepareWasmCode { size: usize },
    BeforeInvoke { input_size: usize },
    AfterInvoke { output_size: usize },
    AllocateNodeId,
    CreateNode { node_id: Vec<u8>, total_substate_size: usize },
    DropNode { total_substate_size: usize },
    MoveModules,
    OpenSubstate { node_id: Vec<u8>, value_size: usize },
    ReadSubstate { value_size: usize },
    WriteSubstate { value_size: usize },
    CloseSubstate,
    SetSubstate { value_size: usize },
    RemoveSubstateBase,
    ScanSortedSubstatesBase,
    ScanSubstatesBase,
    TakeSubstatesBase,
    StoreAccess { num_accesses: usize },
    Commit { node_id: Vec<u8>, size: usize },
    LockFee,
    QueryFeeReserve,
    QueryActor,
    QueryAuthZone,
    AssertAccessRule,
    QueryTransactionHash,
    GenerateRuid,
    EmitEvent { size: usize },
    EmitLog { size: usize },
    Panic { size: usize },
    RoyaltyModule { direct_charge: u32 },
    AuthModule { direct_charge: u32 },
}

/// The units the fee table prices one entry at.
pub open spec fn spec_cost_units(e: &CostingEntry, ft: &FeeTable) -> u32 {
    match e {
        CostingEntry::TxBaseCost => ft.tx_base_cost,
        CostingEntry::TxPayloadCost { size } => spec_scaled(
            *size as nat,
            ft.tx_payload_cost_per_byte,
        ),
        CostingEntry::TxSignatureVerification { num_signatures } => spec_scaled(
            *num_signatures as nat,
            ft.tx_signature_verification_cost_per_sig,
        ),
        CostingEntry::RunNativeCode { input_size, .. } => spec_scaled(
            *input_size as nat,
            ft.run_native_code_cost_per_byte,
        ),
        CostingEntry::RunWasmCode { wasm_execution_units, .. } => spec_scaled(
            *wasm_execution_units as nat,
            ft.run_wasm_code_cost_per_unit,
        ),
        CostingEntry::PrepareWasmCode { size } => spec_scaled(
            *size as nat,
            ft.instantiate_wasm_code_cost_per_byte,
        ),
        CostingEntry::BeforeInvoke { input_size } => spec_scaled(
            *input_size as nat,
            ft.before_invoke_cost_per_byte,
        ),
        CostingEntry::AfterInvoke { output_size } => spec_scaled(
            *output_size as nat,
            ft.after_invoke_cost_per_byte,
        ),
        CostingEntry::AllocateNodeId => ft.allocate_node_id_cost,
        CostingEntry::CreateNode { total_substate_size, .. } => spec_scaled(
            *total_substate_size as nat,
            ft.create_node_cost_per_byte,
        ),
        CostingEntry::DropNode { total_substate_size } => spec_scaled(
            *total_substate_size as nat,
            ft.drop_node_cost_per_byte,
        ),
        CostingEntry::MoveModules => ft.move_modules_cost,
        CostingEntry::OpenSubstate { value_size, .. } => spec_scaled(
            *value_size as nat,
            ft.open_substate_cost_per_byte,
        ),
        CostingEntry::ReadSubstate { value_size } => spec_scaled(
            *value_size as nat,
            ft.read_substate_cost_per_byte,
        ),
        CostingEntry::WriteSubstate { value_size } => spec_scaled(
            *value_size as nat,
            ft.write_substate_cost_per_byte,
        ),
        CostingEntry::CloseSubstate => ft.close_substate_cost,
        CostingEntry::SetSubstate { value_size } => spec_scaled(
            *value_size as nat,
            ft.set_substate_cost_per_byte,
        ),
        CostingEntry::RemoveSubstateBase => ft.remove_substate_base_cost,
        CostingEntry::ScanSortedSubstatesBase => ft.scan_sorted_substates_base_cost,
        CostingEntry::ScanSubstatesBase => ft.scan_substates_base_cost,
        CostingEntry::TakeSubstatesBase => ft.take_substates_base_cost,
        CostingEntry::StoreAccess { num_accesses } => spec_scaled(
            *num_accesses as nat,
            ft.store_access_cost_per_access,
        ),
        CostingEntry::Commit { size, .. } => spec_scaled(
            *size as nat,
            ft.store_commit_cost_per_byte,
        ),
        CostingEntry::LockFee => ft.lock_fee_cost,
        CostingEntry::QueryFeeReserve => ft.query_fee_reserve_cost,
        CostingEntry::QueryActor => ft.query_actor_cost,
        CostingEntry::QueryAuthZone => ft.query_auth_zone_cost,
        CostingEntry::AssertAccessRule => ft.assert_access_rule_cost,
        CostingEntry::QueryTransactionHash => ft.query_transaction_hash_cost,
        CostingEntry::GenerateRuid => ft.generate_ruid_cost,
        CostingEntry::EmitEvent { size } => spec_scaled(*size as nat, ft.emit_event_cost_per_byte),
        CostingEntry::EmitLog { size } => spec_scaled(*size as nat, ft.emit_log_cost_per_byte),
        CostingEntry::Panic { size } => spec_scaled(*size as nat, ft.panic_cost_per_byte),
        CostingEntry::RoyaltyModule { direct_charge } => *direct_charge,
        CostingEntry::AuthModule { direct_charge } => *direct_charge,
    }
}

impl CostingEntry {
    /// Prices this entry by the fee table.
    pub fn to_cost_units(&self, ft: &FeeTable) -> (r: u32)
        ensures
            r == spec_cost_units(self, ft),
    {
        match self {
            CostingEntry::TxBaseCost => ft.tx_base_cost,
            CostingEntry::TxPayloadCost { size } => scaled_cost(*size,
                ft.tx_payload_cost_per_byte),
            CostingEntry::TxSignatureVerification { num_signatures } => scaled_cost(
                *num_signatures,
                ft.tx_signature_verification_cost_per_sig,
            ),
            CostingEntry::RunNativeCode { input_size, .. } => scaled_cost(*input_size,
                ft.run_native_code_cost_per_byte),
            CostingEntry::RunWasmCode { wasm_execution_units, .. } => scaled_cost(
                *wasm_execution_units as usize,
                ft.run_wasm_code_cost_per_unit,
            ),
            CostingEntry::PrepareWasmCode { size } => scaled_cost(*size,
                ft.instantiate_wasm_code_cost_per_byte),
            CostingEntry::BeforeInvoke { input_size } => scaled_cost(*input_size,
                ft.before_invoke_cost_per_byte),
            CostingEntry::AfterInvoke { output_size } => scaled_cost(*output_size,
                ft.after_invoke_cost_per_byte),
            CostingEntry::AllocateNodeId => ft.allocate_node_id_cost,
            CostingEntry::CreateNode { total_substate_size, .. } => scaled_cost(
                *total_substate_size,
                ft.create_node_cost_per_byte,
            ),
            CostingEntry::DropNode { total_substate_size } => scaled_cost(*total_substate_size,
                ft.drop_node_cost_per_byte),
            CostingEntry::MoveModules => ft.move_modules_cost,
            CostingEntry::OpenSubstate { value_size, .. } => scaled_cost(*value_size,
                ft.open_substate_cost_per_byte),
            CostingEntry::ReadSubstate { value_size } => scaled_cost(*value_size,
                ft.read_substate_cost_per_byte),
            CostingEntry::WriteSubstate { value_size } => scaled_cost(*value_size,
                ft.write_substate_cost_per_byte),
            CostingEntry::CloseSubstate => ft.close_substate_cost,
            CostingEntry::SetSubstate { value_size } => scaled_cost(*value_size,
                ft.set_substate_cost_per_byte),
            CostingEntry::RemoveSubstateBase => ft.remove_substate_base_cost,
            CostingEntry::ScanSortedSubstatesBase => ft.scan_sorted_substates_base_cost,
            CostingEntry::ScanSubstatesBase => ft.scan_substates_base_cost,
            CostingEntry::TakeSubstatesBase => ft.take_substates_base_cost,
            CostingEntry::StoreAccess { num_accesses } => scaled_cost(*num_accesses,
                ft.store_access_cost_per_access),
            CostingEntry::Commit { size, .. } => scaled_cost(*size,
                ft.store_commit_cost_per_byte),
            CostingEntry::LockFee => ft.lock_fee_cost,
            CostingEntry::QueryFeeReserve => ft.query_fee_reserve_cost,
            CostingEntry::QueryActor => ft.query_actor_cost,
            CostingEntry::QueryAuthZone => ft.query_auth_zone_cost,
            CostingEntry::AssertAccessRule => ft.assert_access_rule_cost,
            CostingEntry::QueryTransactionHash => ft.query_transaction_hash_cost,
            CostingEntry::GenerateRuid => ft.generate_ruid_cost,
            CostingEntry::EmitEvent { size } => scaled_cost(*size, ft.emit_event_cost_per_byte),
            CostingEntry::EmitLog { size } => scaled_cost(*size, ft.emit_log_cost_per_byte),
            CostingEntry::Panic { size } => scaled_cost(*size, ft.panic_cost_per_byte),
            CostingEntry::RoyaltyModule { direct_charge } => *direct_charge,
            CostingEntry::AuthModule { direct_charge } => *direct_charge,
        }
    }

    /// The key under which traces group this entry: run and substate-open
    /// entries carry their export or entity, the rest their own name.
    pub fn to_trace_key(&self) -> (r: String)
        ensures
            match self {
                CostingEntry::RunNativeCode { export_name, .. } => r@ == "RunNativeCode::"@
                    + export_name@,
                CostingEntry::RunWasmCode { export_name, .. } => r@ == "RunWasmCode::"@
                    + export_name@,
                CostingEntry::OpenSubstate { node_id, .. } => r@ == "OpenSubstate::"@
                    + spec_trace_suffix(node_id@),
                CostingEntry::Commit { node_id, .. } => r@ == "Commit::"@ + spec_trace_suffix(
                    node_id@,
                ),
                CostingEntry::TxBaseCost => r@ == "TxBaseCost"@,
                CostingEntry::TxPayloadCost { .. } => r@ == "TxPayloadCost"@,
                CostingEntry::TxSignatureVerification { .. } => r@ == "TxSignatureVerification"@,
                CostingEntry::PrepareWasmCode { .. } => r@ == "PrepareWasmCode"@,
                CostingEntry::BeforeInvoke { .. } => r@ == "BeforeInvoke"@,
                CostingEntry::AfterInvoke { .. } => r@ == "AfterInvoke"@,
                CostingEntry::AllocateNodeId => r@ == "AllocateNodeId"@,
                CostingEntry::CreateNode { .. } => r@ == "CreateNode"@,
                CostingEntry::DropNode { .. } => r@ == "DropNode"@,
                CostingEntry::MoveModules => r@ == "MoveModules"@,
                CostingEntry::ReadSubstate { .. } => r@ == "ReadSubstate"@,
                CostingEntry::WriteSubstate { .. } => r@ == "WriteSubstate"@,
                CostingEntry::CloseSubstate => r@ == "CloseSubstate"@,
                CostingEntry::SetSubstate { .. } => r@ == "SetSubstate"@,
                CostingEntry::RemoveSubstateBase => r@ == "RemoveSubstateBase"@,
                CostingEntry::ScanSortedSubstatesBase => r@ == "ScanSortedSubstatesBase"@,
                CostingEntry::ScanSubstatesBase => r@ == "ScanSubstatesBase"@,
                CostingEntry::TakeSubstatesBase => r@ == "TakeSubstatesBase"@,
                CostingEntry::StoreAccess { .. } => r@ == "StoreAccess"@,
                CostingEntry::LockFee => r@ == "LockFee"@,
                CostingEntry::QueryFeeReserve => r@ == "QueryFeeReserve"@,
                CostingEntry::QueryActor => r@ == "QueryActor"@,
                CostingEntry::QueryAuthZone => r@ == "QueryAuthZone"@,
                CostingEntry::AssertAccessRule => r@ == "AssertAccessRule"@,
                CostingEntry::QueryTransactionHash => r@ == "QueryTransactionHash"@,
                CostingEntry::GenerateRuid => r@ == "GenerateRuid"@,
                CostingEntry::EmitEvent { .. } => r@ == "EmitEvent"@,
                CostingEntry::EmitLog { .. } => r@ == "EmitLog"@,
                CostingEntry::Panic { .. } => r@ == "Panic"@,
                CostingEntry::RoyaltyModule { .. } => r@ == "RoyaltyModule"@,
                CostingEntry::AuthModule { .. } => r@ == "AuthModule"@,
            },
    {
        match self {
            CostingEntry::RunNativeCode { export_name, .. } => {
                let mut s = String::from_str("RunNativeCode::");
                s.append(export_name.as_str());
                proof {
                    reveal_strlit("RunNativeCode::");
                    assert(s@ =~= "RunNativeCode::"@ + export_name@);
                }
                s
            }
            CostingEntry::RunWasmCode { export_name, .. } => {
                let mut s = String::from_str("RunWasmCode::");
                s.append(export_name.as_str());
                proof {
                    reveal_strlit("RunWasmCode::");
                    assert(s@ =~= "RunWasmCode::"@ + export_name@);
                }
                s
            }
            CostingEntry::OpenSubstate { node_id, .. } => {
                let mut s = String::from_str("OpenSubstate::");
                s.append(trace_suffix(node_id));
                proof {
                    reveal_strlit("OpenSubstate::");
                    assert(s@ =~= "OpenSubstate::"@ + spec_trace_suffix(node_id@));
                }
                s
            }
            CostingEntry::Commit { node_id, .. } => {
                let mut s = String::from_str("Commit::");
                s.append(trace_suffix(node_id));
                proof {
                    reveal_strlit("Commit::");
                    assert(s@ =~= "Commit::"@ + spec_trace_suffix(node_id@));
                }
                s
            }
            CostingEntry::TxBaseCost => {
                let s = String::from_str("TxBaseCost");
                proof {
                    reveal_strlit("TxBaseCost");
                    assert(s@ =~= "TxBaseCost"@);
                }
                s
            }
            CostingEntry::TxPayloadCost { .. } => {
                let s = String::from_str("TxPayloadCost");
                proof {
                    reveal_strlit("TxPayloadCost");
                    assert(s@ =~= "TxPayloadCost"@);
                }
                s
            }
            CostingEntry::TxSignatureVerification { .. } => {
                let s = String::from_str("TxSignatureVerification");
                proof {
                    reveal_strlit("TxSignatureVerification");
                    assert(s@ =~= "TxSignatureVerification"@);
                }
                s
            }
            CostingEntry::PrepareWasmCode { .. } => {
                let s = String::from_str("PrepareWasmCode");
                proof {
                    reveal_strlit("PrepareWasmCode");
                    assert(s@ =~= "PrepareWasmCode"@);
                }
                s
            }
            CostingEntry::BeforeInvoke { .. } => {
                let s = String::from_str("BeforeInvoke");
                proof {
                    reveal_strlit("BeforeInvoke");
                    assert(s@ =~= "BeforeInvoke"@);
                }
                s
            }
            CostingEntry::AfterInvoke { .. } => {
                let s = String::from_str("AfterInvoke");
                proof {
                    reveal_strlit("AfterInvoke");
                    assert(s@ =~= "AfterInvoke"@);
                }
                s
            }
            CostingEntry::AllocateNodeId => {
                let s = String::from_str("AllocateNodeId");
                proof {
                    reveal_strlit("AllocateNodeId");
                    assert(s@ =~= "AllocateNodeId"@);
                }
                s
            }
            CostingEntry::CreateNode { .. } => {
                let s = String::from_str("CreateNode");
                proof {
                    reveal_strlit("CreateNode");
                    assert(s@ =~= "CreateNode"@);
                }
                s
            }
            CostingEntry::DropNode { .. } => {
                let s = String::from_str("DropNode");
                proof {
                    reveal_strlit("DropNode");
                    assert(s@ =~= "DropNode"@);
                }
                s
            }
            CostingEntry::MoveModules => {
                let s = String::from_str("MoveModules");
                proof {
                    reveal_strlit("MoveModules");
                    assert(s@ =~= "MoveModules"@);
                }
                s
            }
            CostingEntry::ReadSubstate { .. } => {
                let s = String::from_str("ReadSubstate");
                proof {
                    reveal_strlit("ReadSubstate");
                    assert(s@ =~= "ReadSubstate"@);
                }
                s
            }
            CostingEntry::WriteSubstate { .. } => {
                let s = String::from_str("WriteSubstate");
                proof {
                    reveal_strlit("WriteSubstate");
                    assert(s@ =~= "WriteSubstate"@);
                }
                s
            }
            CostingEntry::CloseSubstate => {
                let s = String::from_str("CloseSubstate");
                proof {
                    reveal_strlit("CloseSubstate");
                    assert(s@ =~= "CloseSubstate"@);
                }
                s
            }
            CostingEntry::SetSubstate { .. } => {
                let s = String::from_str("SetSubstate");
                proof {
                    reveal_strlit("SetSubstate");
                    assert(s@ =~= "SetSubstate"@);
                }
                s
            }
            CostingEntry::RemoveSubstateBase => {
                let s = String::from_str("RemoveSubstateBase");
                proof {
                    reveal_strlit("RemoveSubstateBase");
                    assert(s@ =~= "RemoveSubstateBase"@);
                }
                s
            }
            CostingEntry::ScanSortedSubstatesBase => {
                let s = String::from_str("ScanSortedSubstatesBase");
                proof {
                    reveal_strlit("ScanSortedSubstatesBase");
                    assert(s@ =~= "ScanSortedSubstatesBase"@);
                }
                s
            }
            CostingEntry::ScanSubstatesBase => {
                let s = String::from_str("ScanSubstatesBase");
                proof {
                    reveal_strlit("ScanSubstatesBase");
                    assert(s@ =~= "ScanSubstatesBase"@);
                }
                s
            }
            CostingEntry::TakeSubstatesBase => {
                let s = String::from_str("TakeSubstatesBase");
                proof {
                    reveal_strlit("TakeSubstatesBase");
                    assert(s@ =~= "TakeSubstatesBase"@);
                }
                s
            }
            CostingEntry::StoreAccess { .. } => {
                let s = String::from_str("StoreAccess");
                proof {
                    reveal_strlit("StoreAccess");
                    assert(s@ =~= "StoreAccess"@);
                }
                s
            }
            CostingEntry::LockFee => {
                let s = String::from_str("LockFee");
                proof {
                    reveal_strlit("LockFee");
                    assert(s@ =~= "LockFee"@);
                }
                s
            }
            CostingEntry::QueryFeeReserve => {
                let s = String::from_str("QueryFeeReserve");
                proof {
                    reveal_strlit("QueryFeeReserve");
                    assert(s@ =~= "QueryFeeReserve"@);
                }
                s
            }
            CostingEntry::QueryActor => {
                let s = String::from_str("QueryActor");
                proof {
                    reveal_strlit("QueryActor");
                    assert(s@ =~= "QueryActor"@);
                }
                s
            }
            CostingEntry::QueryAuthZone => {
                let s = String::from_str("QueryAuthZone");
                proof {
                    reveal_strlit("QueryAuthZone");
                    assert(s@ =~= "QueryAuthZone"@);
                }
                s
            }
            CostingEntry::AssertAccessRule => {
                let s = String::from_str("AssertAccessRule");
                proof {
                    reveal_strlit("AssertAccessRule");
                    assert(s@ =~= "AssertAccessRule"@);
                }
                s
            }
            CostingEntry::QueryTransactionHash => {
                let s = String::from_str("QueryTransactionHash");
                proof {
                    reveal_strlit("QueryTransactionHash");
                    assert(s@ =~= "QueryTransactionHash"@);
                }
                s
            }
            CostingEntry::GenerateRuid => {
                let s = String::from_str("GenerateRuid");
                proof {
                    reveal_strlit("GenerateRuid");
                    assert(s@ =~= "GenerateRuid"@);
                }
                s
            }
            CostingEntry::EmitEvent { .. } => {
                let s = String::from_str("EmitEvent");
                proof {
                    reveal_strlit("EmitEvent");
                    assert(s@ =~= "EmitEvent"@);
                }
                s
            }
            CostingEntry::EmitLog { .. } => {
                let s = String::from_str("EmitLog");
                proof {
                    reveal_strlit("EmitLog");
                    assert(s@ =~= "EmitLog"@);
                }
                s
            }
            CostingEntry::Panic { .. } => {
                let s = String::from_str("Panic");
                proof {
                    reveal_strlit("Panic");
                    assert(s@ =~= "Panic"@);
                }
                s
            }
            CostingEntry::RoyaltyModule { .. } => {
                let s = String::from_str("RoyaltyModule");
                proof {
                    reveal_strlit("RoyaltyModule");
                    assert(s@ =~= "RoyaltyModule"@);
                }
                s
            }
            CostingEntry::AuthModule { .. } => {
                let s = String::from_str("AuthModule");
                proof {
                    reveal_strlit("AuthModule");
                    assert(s@ =~= "AuthModule"@);
                }
                s
            }
        }
    }
}

} // verus!

verus! {

/// Why a client charges cost units directly.
#[derive(Debug, Clone, Copy, PartialEq, Eq, Structural)]
pub enum ClientCostingReason {
    RunWasm,
    RunNative,
}

/// The kernel-module operations exposed to clients that meter and fund
/// execution. Embedders implement it over their fee reserve.
pub trait ClientUnsafeApi {
    fn consume_cost_units(&mut self, units: u32, reason: ClientCostingReason) -> Result<(), u32>;

    fn credit_cost_units(&mut self, vault_id: Vec<u8>, locked_fee: u128, contingent: bool)
        -> Result<u128, u32>;

    fn update_instruction_index(&mut self, new_index: usize) -> Result<(), u32>;

    fn update_wasm_memory_usage(&mut self, size: usize) -> Result<(), u32>;
}

} // verus!

verus! {

use crate::hrp::entity_type_from_id;
use crate::hrp::entity_type_name;
use crate::hrp::spec_entity_name;
use crate::hrp::spec_global_entity_id;

/// The entity name a node id renders under in trace keys: the name of the
/// entity its tag byte names, or a question mark when the tag is unknown.
pub open spec fn spec_trace_suffix(id: Seq<u8>) -> Seq<char> {
    if id.len() > 0 && (exists|e: crate::hrp::EntityType| spec_global_entity_id(e) == id[0]) {
        spec_entity_name(choose|e: crate::hrp::EntityType| spec_global_entity_id(e) == id[0])
    } else {
        "?"@
    }
}

/// The entity name a node id renders under in trace keys.
pub fn trace_suffix(node_id: &Vec<u8>) -> (r: &'static str)
    ensures
        r@ == spec_trace_suffix(node_id@),
{
    if node_id.len() == 0 {
        proof {
            reveal_strlit("?");
        }
        return "?";
    }
    match entity_type_from_id(node_id[0]) {
        Some(e) => {
            proof {
                assert(spec_global_entity_id(e) == node_id@[0]);
                assert(exists|e2: crate::hrp::EntityType|
                    spec_global_entity_id(e2) == node_id@[0]);
                let picked = choose|e2: crate::hrp::EntityType|
                    spec_global_entity_id(e2) == node_id@[0];
                assert(picked == e) by {
                    lemma_entity_id_injective(picked, e);
                }
            }
            entity_type_name(&e)
        }
        None => {
            proof {
                reveal_strlit("?");
                assert(forall|e2: crate::hrp::EntityType|
                    spec_global_entity_id(e2) != node_id@[0]) by {
                    assert forall|e2: crate::hrp::EntityType|
                        spec_global_entity_id(e2) != node_id@[0] by {
                        assert(spec_global_entity_id(e2) <= 20);
                    }
                }
            }
            "?"
        }
    }
}

/// Distinct entity types carry distinct tag bytes.
pub proof fn lemma_entity_id_injective(a: crate::hrp::EntityType, b: crate::hrp::EntityType)
    requires
        spec_global_entity_id(a) == spec_global_entity_id(b),
    ensures
        a == b,
{
}

} // verus!
