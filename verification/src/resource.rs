//! The resource manager's interface: the operations a resource manager
//! offers and the arguments each takes. Amounts are fixed-point values held
//! in their smallest unit; non-fungible local ids are raw bytes.

use vstd::prelude::*;

verus! {

use crate::auth::AccessRule;

pub const RESOURCE_MANAGER_BLUEPRINT: &'static str = "ResourceManager";

pub const RESOURCE_MANAGER_CREATE_FUNGIBLE_IDENT: &'static str = "create_fungible";

pub const RESOURCE_MANAGER_CREATE_FUNGIBLE_WITH_INITIAL_SUPPLY_IDENT: &'static str =
    "create_fungible_with_initial_supply";

pub const RESOURCE_MANAGER_CREATE_NON_FUNGIBLE_IDENT: &'static str = "create_non_fungible";

pub const RESOURCE_MANAGER_CREATE_NON_FUNGIBLE_WITH_ADDRESS_IDENT: &'static str =
    "create_non_fungible_with_address";

pub const RESOURCE_MANAGER_BURN_BUCKET_IDENT: &'static str = "burn_bucket";

pub const RESOURCE_MANAGER_BURN_IDENT: &'static str = "burn";

pub const RESOURCE_MANAGER_CREATE_VAULT_IDENT: &'static str = "create_vault";

pub const RESOURCE_MANAGER_CREATE_BUCKET_IDENT: &'static str = "create_bucket";

pub const RESOURCE_MANAGER_MINT_FUNGIBLE: &'static str = "mint_fungible";

pub const RESOURCE_MANAGER_MINT_NON_FUNGIBLE: &'static str = "mint_non_fungible";

pub const RESOURCE_MANAGER_NON_FUNGIBLE_EXISTS_IDENT: &'static str = "non_fungible_exists";

pub const RESOURCE_MANAGER_GET_NON_FUNGIBLE_IDENT: &'static str = "get_non_fungible";

pub const RESOURCE_MANAGER_GET_RESOURCE_TYPE_IDENT: &'static str = "get_resource_type";

pub const RESOURCE_MANAGER_GET_TOTAL_SUPPLY_IDENT: &'static str = "get_total_supply";

/// A transient resource container, by its id.
#[derive(Debug, Clone, Copy, PartialEq, Eq, Structural)]
pub struct Bucket(pub u32);

/// A vault method whose access the manager configures.
#[derive(Debug, Clone, Copy, PartialEq, Eq, Structural)]
pub enum VaultMethodAuthKey {
    Withdraw,
    Deposit,
    Recall,
}

/// A resource operation whose access the manager configures.
#[derive(Debug, Clone, Copy, PartialEq, Eq, Structural)]
pub enum ResourceMethodAuthKey {
    Mint,
    Burn,
    UpdateNonFungibleData,
    UpdateMetadata,
    Withdraw,
    Deposit,
    Recall,
}

/// How non-fungible local ids are formed.
#[derive(Debug, Clone, Copy, PartialEq, Eq, Structural)]
pub enum NonFungibleIdType {
    Integer,
    Bytes,
    Ruid,
}

/// An access rule and the rule guarding later changes of it.
#[derive(Debug)]
pub struct AuthRulePair {
    pub rule: AccessRule,
    pub mutability: AccessRule,
}

#[derive(Debug)]
pub struct ResourceManagerCreateFungibleInput {
    pub divisibility: u8,
    pub metadata: Vec<(String, String)>,
    pub access_rules: Vec<(ResourceMethodAuthKey, AuthRulePair)>,
}

#[derive(Debug)]
pub struct ResourceManagerCreateFungibleWithInitialSupplyInput {
    pub divisibility: u8,
    pub metadata: Vec<(String, String)>,
    pub access_rules: Vec<(ResourceMethodAuthKey, AuthRulePair)>,
    pub initial_supply: u128,
}

#[derive(Debug)]
pub struct ResourceManagerCreateNonFungibleInput {
    pub id_type: NonFungibleIdType,
    pub metadata: Vec<(String, String)>,
    pub access_rules: Vec<(ResourceMethodAuthKey, AuthRulePair)>,
}

#[derive(Debug)]
pub struct ResourceManagerCreateNonFungibleWithAddressInput {
    pub id_type: NonFungibleIdType,
    pub metadata: Vec<(String, String)>,
    pub access_rules: Vec<(ResourceMethodAuthKey, AuthRulePair)>,
    pub resource_address: Vec<u8>,
}

#[derive(Debug)]
pub struct ResourceManagerBurnBucketInput {
    pub bucket: Bucket,
}

impl Clone for ResourceManagerBurnBucketInput {
    /// A copy naming the same bucket.
    fn clone(&self) -> (r: Self)
        ensures
            r.bucket == self.bucket,
    {
        Self { bucket: Bucket(self.bucket.0) }
    }
}

#[derive(Debug)]
pub struct ResourceManagerBurnInput {
    pub bucket: Bucket,
}

#[derive(Debug)]
pub struct ResourceManagerCreateVaultInput {}

#[derive(Debug)]
pub struct ResourceManagerCreateBucketInput {}

#[derive(Debug)]
pub struct ResourceManagerMintFungibleInput {
    pub amount: u128,
}

#[derive(Debug)]
pub struct ResourceManagerMintNonFungibleInput {
    pub entries: Vec<(Vec<u8>, (Vec<u8>, Vec<u8>))>,
}

#[derive(Debug)]
pub struct ResourceManagerNonFungibleExistsInput {
    pub id: Vec<u8>,
}

#[derive(Debug)]
pub struct ResourceManagerGetNonFungibleInput {
    pub id: Vec<u8>,
}

#[derive(Debug)]
pub struct ResourceManagerGetResourceTypeInput {}

#[derive(Debug)]
pub struct ResourceManagerGetTotalSupplyInput {}

#[derive(Debug)]
pub struct ResourceManagerUpdateVaultAuthInput {
    pub method: VaultMethodAuthKey,
    pub access_rule: AccessRule,
}

#[derive(Debug)]
pub struct ResourceManagerSetVaultAuthMutabilityInput {
    pub method: VaultMethodAuthKey,
    pub mutability: AccessRule,
}

#[derive(Debug)]
pub struct ResourceManagerUpdateNonFungibleDataInput {
    pub id: Vec<u8>,
    pub data: Vec<u8>,
}

pub struct ResourceManagerAbi;

impl ResourceManagerAbi {
    /// The blueprint carries no statically described interface entries.
    pub fn blueprint_abis() -> (r: Vec<(String, Vec<u8>)>)
        ensures
            r@.len() == 0,
    {
        Vec::new()
    }
}

} // verus!

verus! {

pub const RESOURCE_MANAGER_CREATE_FUNGIBLE_WITH_INITIAL_SUPPLY_AND_ADDRESS_IDENT: &'static str =
    "create_fungible_with_initial_supply_and_address";

pub const RESOURCE_MANAGER_CREATE_NON_FUNGIBLE_WITH_INITIAL_SUPPLY_IDENT: &'static str =
    "create_non_fungible_with_initial_supply";

pub const RESOURCE_MANAGER_CREATE_UUID_NON_FUNGIBLE_WITH_INITIAL_SUPPLY: &'static str =
    "create_uuid_non_fungible_with_initial_supply";

pub const RESOURCE_MANAGER_MINT_UUID_NON_FUNGIBLE: &'static str = "mint_uuid_non_fungible";

#[derive(Debug)]
pub struct ResourceManagerCreateFungibleWithInitialSupplyAndAddressInput {
    pub divisibility: u8,
    pub metadata: Vec<(String, String)>,
    pub access_rules: Vec<(ResourceMethodAuthKey, AuthRulePair)>,
    pub initial_supply: u128,
    pub resource_address: Vec<u8>,
}

#[derive(Debug)]
pub struct ResourceManagerCreateNonFungibleWithInitialSupplyInput {
    pub id_type: NonFungibleIdType,
    pub metadata: Vec<(String, String)>,
    pub access_rules: Vec<(ResourceMethodAuthKey, AuthRulePair)>,
    pub entries: Vec<(Vec<u8>, (Vec<u8>, Vec<u8>))>,
}

#[derive(Debug)]
pub struct ResourceManagerCreateUuidNonFungibleWithInitialSupplyInput {
    pub metadata: Vec<(String, String)>,
    pub access_rules: Vec<(ResourceMethodAuthKey, AuthRulePair)>,
    pub entries: Vec<(Vec<u8>, Vec<u8>)>,
}

#[derive(Debug)]
pub struct ResourceManagerMintUuidNonFungibleInput {
    pub entries: Vec<(Vec<u8>, Vec<u8>)>,
}

/// A single-resource pool's state: its vault and the resource manager of the
/// pool-unit resource it issues, each by node id.
#[derive(Debug)]
pub struct OneResourcePoolSubstate {
    pub vault: Vec<u8>,
    pub pool_unit_resource_manager: Vec<u8>,
}

} // verus!
