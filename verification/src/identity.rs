//! The identity blueprint: creating an identity node whose metadata is
//! guarded by the creator's access rule.

use vstd::prelude::*;

verus! {

use crate::auth::AccessRule;
use crate::epoch_manager::InterpreterError;
use crate::epoch_manager::RuntimeError;

pub const IDENTITY_CREATE_IDENT: &'static str = "create";
pub const METADATA_GET_IDENT: &'static str = "get";
pub const METADATA_SET_IDENT: &'static str = "set";

/// One method's rule and the rule guarding later changes of it.
#[derive(Debug)]
pub struct MethodAccessRule {
    pub module_id: u8,
    pub ident: String,
    pub rule: AccessRule,
    pub mutability: AccessRule,
}

/// The access rules attached to a new node.
#[derive(Debug)]
pub struct AccessRules {
    pub rules: Vec<MethodAccessRule>,
}

impl AccessRules {
    pub fn new() -> (r: Self)
        ensures
            r.rules@.len() == 0,
    {
        Self { rules: Vec::new() }
    }

    /// Adds one method's rule and its mutability.
    pub fn set_access_rule_and_mutability(
        &mut self,
        module_id: u8,
        ident: String,
        rule: AccessRule,
        mutability: AccessRule,
    )
        ensures
            final(self).rules@.len() == old(self).rules@.len() + 1,
            forall|j: int|
                0 <= j < old(self).rules@.len() ==> final(self).rules@[j] == old(self).rules@[j],
            final(self).rules@.last().module_id == module_id,
            final(self).rules@.last().ident@ == ident@,
            final(self).rules@.last().rule == rule,
            final(self).rules@.last().mutability == mutability,
    {
        self.rules.push(MethodAccessRule { module_id, ident, rule, mutability });
    }
}

pub struct IdentityNativePackage;

/// The module under which metadata methods live.
pub const METADATA_MODULE_ID: u8 = 1;

impl IdentityNativePackage {
    /// Maps an export name and the presence of a receiver to the operation:
    /// only `create`, which takes no receiver, exists; any other name is an
    /// export that does not exist.
    pub fn invoke_export(export_name: &str, has_receiver: bool) -> (r: Result<(), RuntimeError>)
        ensures
            ({
                let n = vstd::utf8::encode_utf8(export_name@);
                if n == vstd::utf8::encode_utf8(IDENTITY_CREATE_IDENT@) {
                    if has_receiver {
                        r matches Err(RuntimeError::InterpreterError(
                            InterpreterError::NativeUnexpectedReceiver(_)))
                    } else {
                        r is Ok
                    }
                } else {
                    r matches Err(RuntimeError::InterpreterError(
                        InterpreterError::NativeExportDoesNotExist(missing))) && missing@
                        == export_name@
                }
            }),
    {
        if crate::auth::str_eq(export_name, IDENTITY_CREATE_IDENT) {
            if has_receiver {
                return Err(RuntimeError::InterpreterError(
                    InterpreterError::NativeUnexpectedReceiver(export_name.to_owned()),
                ));
            }
            Ok(())
        } else {
            Err(RuntimeError::InterpreterError(InterpreterError::NativeExportDoesNotExist(
                export_name.to_owned(),
            )))
        }
    }
}

pub struct Identity;

impl Identity {
    /// The access rules of a new identity: the creator's rule guards setting
    /// metadata (and its own mutability); reading metadata is open to all and
    /// immutably so. The caller allocated the node id.
    pub fn create(access_rule: AccessRule, allocated_node_id: Vec<u8>) -> (r: (
        Vec<u8>,
        AccessRules,
    ))
        ensures
            r.0@ == allocated_node_id@,
            r.1.rules@.len() == 2,
            r.1.rules@[0].module_id == METADATA_MODULE_ID,
            r.1.rules@[0].ident@ == METADATA_SET_IDENT@,
            crate::auth::access_rule_like(&r.1.rules@[0].rule, &access_rule),
            r.1.rules@[0].mutability == access_rule,
            r.1.rules@[1].module_id == METADATA_MODULE_ID,
            r.1.rules@[1].ident@ == METADATA_GET_IDENT@,
            r.1.rules@[1].rule is AllowAll,
            r.1.rules@[1].mutability is DenyAll,
    {
        let mut access_rules = AccessRules::new();
        let rule_copy = access_rule.duplicate();
        access_rules.set_access_rule_and_mutability(
            METADATA_MODULE_ID,
            METADATA_SET_IDENT.to_owned(),
            rule_copy,
            access_rule,
        );
        access_rules.set_access_rule_and_mutability(
            METADATA_MODULE_ID,
            METADATA_GET_IDENT.to_owned(),
            AccessRule::AllowAll,
            AccessRule::DenyAll,
        );
        (allocated_node_id, access_rules)
    }
}

} // verus!
