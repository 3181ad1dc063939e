//! Human-readable prefixes: every global entity type renders under a
//! network-specific prefix, built from the network's suffix.

use vstd::prelude::*;

verus! {

use vstd::string::StringExecFns;

/// A network, named by the suffix its prefixes carry.
#[derive(Debug, Clone)]
pub struct NetworkDefinition {
    pub id: u8,
    pub logical_name: String,
    pub hrp_suffix: String,
}

/// The entity type of a global or internal node.
#[derive(Debug, Clone, Copy, PartialEq, Eq, Structural)]
pub enum EntityType {
    GlobalPackage,
    GlobalFungibleResourceManager,
    GlobalNonFungibleResourceManager,
    GlobalConsensusManager,
    GlobalValidator,
    GlobalAccessController,
    GlobalAccount,
    GlobalIdentity,
    GlobalGenericComponent,
    GlobalVirtualSecp256k1Account,
    GlobalVirtualEd25519Account,
    GlobalVirtualSecp256k1Identity,
    GlobalVirtualEd25519Identity,
    GlobalSingleResourcePool,
    GlobalTwoResourcePool,
    GlobalManyResourcePool,
    InternalFungibleVault,
    InternalNonFungibleVault,
    InternalAccount,
    InternalGenericComponent,
    InternalKeyValueStore,
}

/// One prefix per prefix class; a class may serve several entity types.
#[derive(Debug, Clone)]
pub struct HrpSet {
    pub package: String,
    pub resource: String,
    pub component: String,
    pub account: String,
    pub identity: String,
    pub consensus_manager: String,
    pub validator: String,
    pub access_controller: String,
    pub pool: String,
    pub internal_vault: String,
    pub internal_account: String,
    pub internal_component: String,
    pub internal_key_value_store: String,
}

/// Which prefix class an entity type renders under.
pub open spec fn spec_hrp_of(set: &HrpSet, entity: EntityType) -> Seq<char> {
    match entity {
        EntityType::GlobalPackage => set.package@,
        EntityType::GlobalFungibleResourceManager => set.resource@,
        EntityType::GlobalNonFungibleResourceManager => set.resource@,
        EntityType::GlobalConsensusManager => set.consensus_manager@,
        EntityType::GlobalValidator => set.validator@,
        EntityType::GlobalAccessController => set.access_controller@,
        EntityType::GlobalAccount => set.account@,
        EntityType::GlobalIdentity => set.identity@,
        EntityType::GlobalGenericComponent => set.component@,
        EntityType::GlobalVirtualSecp256k1Account => set.account@,
        EntityType::GlobalVirtualEd25519Account => set.account@,
        EntityType::GlobalVirtualSecp256k1Identity => set.identity@,
        EntityType::GlobalVirtualEd25519Identity => set.identity@,
        EntityType::GlobalSingleResourcePool => set.pool@,
        EntityType::GlobalTwoResourcePool => set.pool@,
        EntityType::GlobalManyResourcePool => set.pool@,
        EntityType::InternalFungibleVault => set.internal_vault@,
        EntityType::InternalNonFungibleVault => set.internal_vault@,
        EntityType::InternalAccount => set.internal_account@,
        EntityType::InternalGenericComponent => set.internal_component@,
        EntityType::InternalKeyValueStore => set.internal_key_value_store@,
    }
}

impl HrpSet {
    /// The prefix an entity type renders under.
    pub fn get_entity_hrp(&self, entity: &EntityType) -> (r: &str)
        ensures
            r@ == spec_hrp_of(self, *entity),
    {
        match entity {
            EntityType::GlobalPackage => self.package.as_str(),
            EntityType::GlobalFungibleResourceManager => self.resource.as_str(),
            EntityType::GlobalNonFungibleResourceManager => self.resource.as_str(),
            EntityType::GlobalConsensusManager => self.consensus_manager.as_str(),
            EntityType::GlobalValidator => self.validator.as_str(),
            EntityType::GlobalAccessController => self.access_controller.as_str(),
            EntityType::GlobalAccount => self.account.as_str(),
            EntityType::GlobalIdentity => self.identity.as_str(),
            EntityType::GlobalGenericComponent => self.component.as_str(),
            EntityType::GlobalVirtualSecp256k1Account => self.account.as_str(),
            EntityType::GlobalVirtualEd25519Account => self.account.as_str(),
            EntityType::GlobalVirtualSecp256k1Identity => self.identity.as_str(),
            EntityType::GlobalVirtualEd25519Identity => self.identity.as_str(),
            EntityType::GlobalSingleResourcePool => self.pool.as_str(),
            EntityType::GlobalTwoResourcePool => self.pool.as_str(),
            EntityType::GlobalManyResourcePool => self.pool.as_str(),
            EntityType::InternalFungibleVault => self.internal_vault.as_str(),
            EntityType::InternalNonFungibleVault => self.internal_vault.as_str(),
            EntityType::InternalAccount => self.internal_account.as_str(),
            EntityType::InternalGenericComponent => self.internal_component.as_str(),
            EntityType::InternalKeyValueStore => self.internal_key_value_store.as_str(),
        }
    }

    /// The prefixes of a network: each class prefix is its fixed stem
    /// followed by the network's suffix.
    pub fn from(network_definition: &NetworkDefinition) -> (r: Self)
        ensures
            r.package@ == "package_"@ + network_definition.hrp_suffix@,
            r.resource@ == "resource_"@ + network_definition.hrp_suffix@,
            r.component@ == "component_"@ + network_definition.hrp_suffix@,
            r.account@ == "account_"@ + network_definition.hrp_suffix@,
            r.identity@ == "identity_"@ + network_definition.hrp_suffix@,
            r.consensus_manager@ == "consensusmanager_"@ + network_definition.hrp_suffix@,
            r.validator@ == "validator_"@ + network_definition.hrp_suffix@,
            r.access_controller@ == "accesscontroller_"@ + network_definition.hrp_suffix@,
            r.pool@ == "pool_"@ + network_definition.hrp_suffix@,
            r.internal_vault@ == "internal_vault_"@ + network_definition.hrp_suffix@,
            r.internal_account@ == "internal_account_"@ + network_definition.hrp_suffix@,
            r.internal_component@ == "internal_component_"@ + network_definition.hrp_suffix@,
            r.internal_key_value_store@ == "internal_keyvaluestore_"@
                + network_definition.hrp_suffix@,
    {
        let suffix = network_definition.hrp_suffix.as_str();
        let set = HrpSet {
            package: prefixed("package_", suffix),
            resource: prefixed("resource_", suffix),
            component: prefixed("component_", suffix),
            account: prefixed("account_", suffix),
            identity: prefixed("identity_", suffix),
            consensus_manager: prefixed("consensusmanager_", suffix),
            validator: prefixed("validator_", suffix),
            access_controller: prefixed("accesscontroller_", suffix),
            pool: prefixed("pool_", suffix),
            internal_vault: prefixed("internal_vault_", suffix),
            internal_account: prefixed("internal_account_", suffix),
            internal_component: prefixed("internal_component_", suffix),
            internal_key_value_store: prefixed("internal_keyvaluestore_", suffix),
        };
        set
    }
}

/// The stem followed by the suffix.
pub fn prefixed(stem: &str, suffix: &str) -> (r: String)
    ensures
        r@ == stem@ + suffix@,
{
    let mut s = stem.to_owned();
    s.append(suffix);
    s
}

} // verus!

verus! {

/// The tag byte a node id carries for each entity type.
pub open spec fn spec_global_entity_id(e: EntityType) -> u8 {
    match e {
        EntityType::GlobalPackage => 0,
        EntityType::GlobalFungibleResourceManager => 1,
        EntityType::GlobalNonFungibleResourceManager => 2,
        EntityType::GlobalConsensusManager => 3,
        EntityType::GlobalValidator => 4,
        EntityType::GlobalAccessController => 5,
        EntityType::GlobalAccount => 6,
        EntityType::GlobalIdentity => 7,
        EntityType::GlobalGenericComponent => 8,
        EntityType::GlobalVirtualSecp256k1Account => 9,
        EntityType::GlobalVirtualEd25519Account => 10,
        EntityType::GlobalVirtualSecp256k1Identity => 11,
        EntityType::GlobalVirtualEd25519Identity => 12,
        EntityType::GlobalSingleResourcePool => 13,
        EntityType::GlobalTwoResourcePool => 14,
        EntityType::GlobalManyResourcePool => 15,
        EntityType::InternalFungibleVault => 16,
        EntityType::InternalNonFungibleVault => 17,
        EntityType::InternalAccount => 18,
        EntityType::InternalGenericComponent => 19,
        EntityType::InternalKeyValueStore => 20,
    }
}

/// The entity type a node id's tag byte names, if any.
pub fn entity_type_from_id(id: u8) -> (r: Option<EntityType>)
    ensures
        match r {
            Some(e) => spec_global_entity_id(e) == id,
            None => id > 20,
        },
{
    match id {
        0 => Some(EntityType::GlobalPackage),
        1 => Some(EntityType::GlobalFungibleResourceManager),
        2 => Some(EntityType::GlobalNonFungibleResourceManager),
        3 => Some(EntityType::GlobalConsensusManager),
        4 => Some(EntityType::GlobalValidator),
        5 => Some(EntityType::GlobalAccessController),
        6 => Some(EntityType::GlobalAccount),
        7 => Some(EntityType::GlobalIdentity),
        8 => Some(EntityType::GlobalGenericComponent),
        9 => Some(EntityType::GlobalVirtualSecp256k1Account),
        10 => Some(EntityType::GlobalVirtualEd25519Account),
        11 => Some(EntityType::GlobalVirtualSecp256k1Identity),
        12 => Some(EntityType::GlobalVirtualEd25519Identity),
        13 => Some(EntityType::GlobalSingleResourcePool),
        14 => Some(EntityType::GlobalTwoResourcePool),
        15 => Some(EntityType::GlobalManyResourcePool),
        16 => Some(EntityType::InternalFungibleVault),
        17 => Some(EntityType::InternalNonFungibleVault),
        18 => Some(EntityType::InternalAccount),
        19 => Some(EntityType::InternalGenericComponent),
        20 => Some(EntityType::InternalKeyValueStore),
        _ => None,
    }
}

/// The name of an entity type, as traces render it.
pub open spec fn spec_entity_name(e: EntityType) -> Seq<char> {
    match e {
        EntityType::GlobalPackage => "GlobalPackage"@,
        EntityType::GlobalFungibleResourceManager => "GlobalFungibleResourceManager"@,
        EntityType::GlobalNonFungibleResourceManager => "GlobalNonFungibleResourceManager"@,
        EntityType::GlobalConsensusManager => "GlobalConsensusManager"@,
        EntityType::GlobalValidator => "GlobalValidator"@,
        EntityType::GlobalAccessController => "GlobalAccessController"@,
        EntityType::GlobalAccount => "GlobalAccount"@,
        EntityType::GlobalIdentity => "GlobalIdentity"@,
        EntityType::GlobalGenericComponent => "GlobalGenericComponent"@,
        EntityType::GlobalVirtualSecp256k1Account => "GlobalVirtualSecp256k1Account"@,
        EntityType::GlobalVirtualEd25519Account => "GlobalVirtualEd25519Account"@,
        EntityType::GlobalVirtualSecp256k1Identity => "GlobalVirtualSecp256k1Identity"@,
        EntityType::GlobalVirtualEd25519Identity => "GlobalVirtualEd25519Identity"@,
        EntityType::GlobalSingleResourcePool => "GlobalSingleResourcePool"@,
        EntityType::GlobalTwoResourcePool => "GlobalTwoResourcePool"@,
        EntityType::GlobalManyResourcePool => "GlobalManyResourcePool"@,
        EntityType::InternalFungibleVault => "InternalFungibleVault"@,
        EntityType::InternalNonFungibleVault => "InternalNonFungibleVault"@,
        EntityType::InternalAccount => "InternalAccount"@,
        EntityType::InternalGenericComponent => "InternalGenericComponent"@,
        EntityType::InternalKeyValueStore => "InternalKeyValueStore"@,
    }
}

/// The name of an entity type, as traces render it.
pub fn entity_type_name(e: &EntityType) -> (r: &'static str)
    ensures
        r@ == spec_entity_name(*e),
{
    match e {
        EntityType::GlobalPackage => {
            proof {
                reveal_strlit("GlobalPackage");
                assert("GlobalPackage"@ =~= spec_entity_name(*e));
            }
            "GlobalPackage"
        }
        EntityType::GlobalFungibleResourceManager => {
            proof {
                reveal_strlit("GlobalFungibleResourceManager");
                assert("GlobalFungibleResourceManager"@ =~= spec_entity_name(*e));
            }
            "GlobalFungibleResourceManager"
        }
        EntityType::GlobalNonFungibleResourceManager => {
            proof {
                reveal_strlit("GlobalNonFungibleResourceManager");
                assert("GlobalNonFungibleResourceManager"@ =~= spec_entity_name(*e));
            }
            "GlobalNonFungibleResourceManager"
        }
        EntityType::GlobalConsensusManager => {
            proof {
                reveal_strlit("GlobalConsensusManager");
                assert("GlobalConsensusManager"@ =~= spec_entity_name(*e));
            }
            "GlobalConsensusManager"
        }
        EntityType::GlobalValidator => {
            proof {
                reveal_strlit("GlobalValidator");
                assert("GlobalValidator"@ =~= spec_entity_name(*e));
            }
            "GlobalValidator"
        }
        EntityType::GlobalAccessController => {
            proof {
                reveal_strlit("GlobalAccessController");
                assert("GlobalAccessController"@ =~= spec_entity_name(*e));
            }
            "GlobalAccessController"
        }
        EntityType::GlobalAccount => {
            proof {
                reveal_strlit("GlobalAccount");
                assert("GlobalAccount"@ =~= spec_entity_name(*e));
            }
            "GlobalAccount"
        }
        EntityType::GlobalIdentity => {
            proof {
                reveal_strlit("GlobalIdentity");
                assert("GlobalIdentity"@ =~= spec_entity_name(*e));
            }
            "GlobalIdentity"
        }
        EntityType::GlobalGenericComponent => {
            proof {
                reveal_strlit("GlobalGenericComponent");
                assert("GlobalGenericComponent"@ =~= spec_entity_name(*e));
            }
            "GlobalGenericComponent"
        }
        EntityType::GlobalVirtualSecp256k1Account => {
            proof {
                reveal_strlit("GlobalVirtualSecp256k1Account");
                assert("GlobalVirtualSecp256k1Account"@ =~= spec_entity_name(*e));
            }
            "GlobalVirtualSecp256k1Account"
        }
        EntityType::GlobalVirtualEd25519Account => {
            proof {
                reveal_strlit("GlobalVirtualEd25519Account");
                assert("GlobalVirtualEd25519Account"@ =~= spec_entity_name(*e));
            }
            "GlobalVirtualEd25519Account"
        }
        EntityType::GlobalVirtualSecp256k1Identity => {
            proof {
                reveal_strlit("GlobalVirtualSecp256k1Identity");
                assert("GlobalVirtualSecp256k1Identity"@ =~= spec_entity_name(*e));
            }
            "GlobalVirtualSecp256k1Identity"
        }
        EntityType::GlobalVirtualEd25519Identity => {
            proof {
                reveal_strlit("GlobalVirtualEd25519Identity");
                assert("GlobalVirtualEd25519Identity"@ =~= spec_entity_name(*e));
            }
            "GlobalVirtualEd25519Identity"
        }
        EntityType::GlobalSingleResourcePool => {
            proof {
                reveal_strlit("GlobalSingleResourcePool");
                assert("GlobalSingleResourcePool"@ =~= spec_entity_name(*e));
            }
            "GlobalSingleResourcePool"
        }
        EntityType::GlobalTwoResourcePool => {
            proof {
                reveal_strlit("GlobalTwoResourcePool");
                assert("GlobalTwoResourcePool"@ =~= spec_entity_name(*e));
            }
            "GlobalTwoResourcePool"
        }
        EntityType::GlobalManyResourcePool => {
            proof {
                reveal_strlit("GlobalManyResourcePool");
                assert("GlobalManyResourcePool"@ =~= spec_entity_name(*e));
            }
            "GlobalManyResourcePool"
        }
        EntityType::InternalFungibleVault => {
            proof {
                reveal_strlit("InternalFungibleVault");
                assert("InternalFungibleVault"@ =~= spec_entity_name(*e));
            }
            "InternalFungibleVault"
        }
        EntityType::InternalNonFungibleVault => {
            proof {
                reveal_strlit("InternalNonFungibleVault");
                assert("InternalNonFungibleVault"@ =~= spec_entity_name(*e));
            }
            "InternalNonFungibleVault"
        }
        EntityType::InternalAccount => {
            proof {
                reveal_strlit("InternalAccount");
                assert("InternalAccount"@ =~= spec_entity_name(*e));
            }
            "InternalAccount"
        }
        EntityType::InternalGenericComponent => {
            proof {
                reveal_strlit("InternalGenericComponent");
                assert("InternalGenericComponent"@ =~= spec_entity_name(*e));
            }
            "InternalGenericComponent"
        }
        EntityType::InternalKeyValueStore => {
            proof {
                reveal_strlit("InternalKeyValueStore");
                assert("InternalKeyValueStore"@ =~= spec_entity_name(*e));
            }
            "InternalKeyValueStore"
        }
    }
}

} // verus!
