//! Blueprint and key-value-store schemas: which types fields and collections
//! carry, which receiver a method expects, and which reference kinds it
//! accepts.

use vstd::prelude::*;

verus! {

/// A type within a schema: either well known, or local to the schema.
#[derive(Debug, Clone, Copy, PartialEq, Eq, Structural)]
pub enum LocalTypeIndex {
    WellKnown(u8),
    SchemaLocalIndex(usize),
}

/// The package references a schema's types carry: `None` marks the
/// blueprint's own, not yet known package.
#[derive(Debug)]
pub struct ScryptoSchema {
    pub package_addresses: Vec<Option<Vec<u8>>>,
}

/// The schema of one key-value store: its key and value types, and whether
/// values may own nodes.
#[derive(Debug)]
pub struct KeyValueStoreSchema {
    pub schema: ScryptoSchema,
    pub key: LocalTypeIndex,
    pub value: LocalTypeIndex,
    pub can_own: bool,
}

impl KeyValueStoreSchema {
    pub fn new(schema: ScryptoSchema, key: LocalTypeIndex, value: LocalTypeIndex, can_own: bool)
        -> (r: Self)
        ensures
            r.schema == schema,
            r.key == key,
            r.value == value,
            r.can_own == can_own,
    {
        Self { schema, key, value, can_own }
    }

    /// Resolves every reference to the blueprint's own package to the
    /// package address it was published under.
    pub fn replace_self_package_address(&mut self, package_address: Vec<u8>)
        ensures
            final(self).key == old(self).key,
            final(self).value == old(self).value,
            final(self).can_own == old(self).can_own,
            final(self).schema.package_addresses@.len() == old(
                self,
            ).schema.package_addresses@.len(),
            forall|i: int|
                0 <= i < old(self).schema.package_addresses@.len() ==> match (#[trigger] old(
                    self,
                ).schema.package_addresses@[i]) {
                    None => final(self).schema.package_addresses@[i] matches Some(a) && a@
                        == package_address@,
                    Some(_) => final(self).schema.package_addresses@[i] == old(
                        self,
                    ).schema.package_addresses@[i],
                },
    {
        let n = self.schema.package_addresses.len();
        let mut i: usize = 0;
        while i < n
            invariant
                i <= n,
                n == self.schema.package_addresses@.len(),
                self.schema.package_addresses@.len() == old(
                    self,
                ).schema.package_addresses@.len(),
                final(self).key == old(self).key || self.key == old(self).key,
                self.key == old(self).key,
                self.value == old(self).value,
                self.can_own == old(self).can_own,
                forall|j: int|
                    i <= j < n ==> (#[trigger] self.schema.package_addresses@[j]) == old(
                        self,
                    ).schema.package_addresses@[j],
                forall|j: int|
                    0 <= j < i ==> match (#[trigger] old(self).schema.package_addresses@[j]) {
                        None => self.schema.package_addresses@[j] matches Some(a) && a@
                            == package_address@,
                        Some(_) => self.schema.package_addresses@[j] == old(
                            self,
                        ).schema.package_addresses@[j],
                    },
            decreases n - i,
        {
            let is_own = self.schema.package_addresses[i].is_none();
            if is_own {
                let fresh = package_address.clone();
                proof {
                    assert(fresh@ =~= package_address@);
                }
                self.schema.package_addresses[i] = Some(fresh);
            }
            i = i + 1;
        }
    }
}

/// A method of a node, keyed by module and name.
#[derive(Debug, Clone)]
pub struct SchemaMethodKey {
    pub module_id: u8,
    pub ident: String,
}

impl SchemaMethodKey {
    /// A key in the main module.
    pub fn main(method_ident: &str) -> (r: Self)
        ensures
            r.module_id == 0,
            r.ident@ == method_ident@,
    {
        Self { module_id: 0, ident: method_ident.to_owned() }
    }

    /// A key in the metadata module.
    pub fn metadata(method_ident: &str) -> (r: Self)
        ensures
            r.module_id == 1,
            r.ident@ == method_ident@,
    {
        Self { module_id: 1, ident: method_ident.to_owned() }
    }

    /// A key in the royalty module.
    pub fn royalty(method_ident: &str) -> (r: Self)
        ensures
            r.module_id == 2,
            r.ident@ == method_ident@,
    {
        Self { module_id: 2, ident: method_ident.to_owned() }
    }
}

/// Who may call a method: everyone, or the named roles.
#[derive(Debug, Clone)]
pub enum SchemaMethodPermission {
    Public,
    Protected(Vec<String>),
}

impl SchemaMethodPermission {
    /// The permission protected by the given role names.
    pub fn protected_by(value: &[&str]) -> (r: Self)
        ensures
            r matches SchemaMethodPermission::Protected(roles) && roles@.len() == value@.len()
                && (forall|i: int| 0 <= i < value@.len() ==> (#[trigger] roles@[i])@
                == value@[i]@),
    {
        let mut roles: Vec<String> = Vec::new();
        let mut i: usize = 0;
        while i < value.len()
            invariant
                i <= value@.len(),
                roles@.len() == i,
                forall|j: int| 0 <= j < i ==> (#[trigger] roles@[j])@ == value@[j]@,
            decreases value@.len() - i,
        {
            roles.push(value[i].to_owned());
            i = i + 1;
        }
        SchemaMethodPermission::Protected(roles)
    }
}

/// A type reference in a blueprint's interface: fixed by the blueprint, or
/// given per instance.
#[derive(Debug, Clone, PartialEq, Eq, Structural)]
pub enum TypeRef<T> {
    Blueprint(T),
    Instance(u8),
}

impl<T> TypeRef<T> {
    /// Applies `f` to a blueprint-fixed type; an instance slot is kept.
    pub fn map<U, F: Fn(T) -> U>(self, f: F) -> (r: TypeRef<U>)
        requires
            self matches TypeRef::Blueprint(v) ==> f.requires((v,)),
        ensures
            match self {
                TypeRef::Blueprint(v) => r matches TypeRef::Blueprint(u) && f.ensures((v,), u),
                TypeRef::Instance(x) => r == TypeRef::<U>::Instance(x),
            },
    {
        match self {
            TypeRef::Blueprint(v) => TypeRef::Blueprint(f(v)),
            TypeRef::Instance(v) => TypeRef::Instance(v),
        }
    }
}

/// The schema of a blueprint collection backed by a key-value store.
#[derive(Debug, Clone, PartialEq, Eq, Structural)]
pub struct BlueprintKeyValueStoreSchema<T> {
    pub key: TypeRef<T>,
    pub value: TypeRef<T>,
    pub can_own: bool,
}

impl<T> BlueprintKeyValueStoreSchema<T> {
    /// Applies `f` to the key and value types.
    pub fn map<U, F: Fn(T) -> U + Copy>(self, f: F) -> (r: BlueprintKeyValueStoreSchema<U>)
        requires
            forall|t: T| #[trigger] f.requires((t,)),
        ensures
            match self.key {
                TypeRef::Blueprint(v) => r.key matches TypeRef::Blueprint(u) && f.ensures((v,), u),
                TypeRef::Instance(x) => r.key == TypeRef::<U>::Instance(x),
            },
            match self.value {
                TypeRef::Blueprint(v) => r.value matches TypeRef::Blueprint(u) && f.ensures(
                    (v,),
                    u,
                ),
                TypeRef::Instance(x) => r.value == TypeRef::<U>::Instance(x),
            },
            r.can_own == self.can_own,
    {
        BlueprintKeyValueStoreSchema {
            key: self.key.map(f),
            value: self.value.map(f),
            can_own: self.can_own,
        }
    }
}

#[derive(Debug, Clone, PartialEq, Eq, Structural)]
pub struct BlueprintIndexSchema {}

#[derive(Debug, Clone, PartialEq, Eq, Structural)]
pub struct BlueprintSortedIndexSchema {}

/// The schema of one collection of a blueprint.
#[derive(Debug, Clone, PartialEq, Eq, Structural)]
pub enum BlueprintCollectionSchema<T> {
    KeyValueStore(BlueprintKeyValueStoreSchema<T>),
    Index(BlueprintIndexSchema),
    SortedIndex(BlueprintSortedIndexSchema),
}

impl<T> BlueprintCollectionSchema<T> {
    /// Applies `f` to the types of a key-value collection; index collections
    /// carry no types.
    pub fn map<U, F: Fn(T) -> U + Copy>(self, f: F) -> (r: BlueprintCollectionSchema<U>)
        requires
            forall|t: T| #[trigger] f.requires((t,)),
        ensures
            match self {
                BlueprintCollectionSchema::KeyValueStore(schema) => r matches
                    BlueprintCollectionSchema::KeyValueStore(s2) && s2.can_own == schema.can_own,
                BlueprintCollectionSchema::Index(_) => r matches BlueprintCollectionSchema::Index(
                    _,
                ),
                BlueprintCollectionSchema::SortedIndex(_) => r matches
                    BlueprintCollectionSchema::SortedIndex(_),
            },
    {
        match self {
            BlueprintCollectionSchema::Index(schema) => BlueprintCollectionSchema::Index(schema),
            BlueprintCollectionSchema::SortedIndex(schema) => BlueprintCollectionSchema::SortedIndex(
                schema,
            ),
            BlueprintCollectionSchema::KeyValueStore(schema) =>
                BlueprintCollectionSchema::KeyValueStore(schema.map(f)),
        }
    }
}

/// A schema item, possibly behind a feature flag.
#[derive(Debug, Clone)]
pub enum FeaturedSchema<V> {
    Normal { value: V },
    Conditional { feature: String, value: V },
}

impl<V> FeaturedSchema<V> {
    /// An unconditional item.
    pub fn normal(value: V) -> (r: Self)
        ensures
            r == (FeaturedSchema::Normal { value }),
    {
        FeaturedSchema::Normal { value }
    }

    /// The item, whichever form it takes.
    pub fn value(&self) -> (r: &V)
        ensures
            match self {
                FeaturedSchema::Normal { value } => r == value,
                FeaturedSchema::Conditional { value, .. } => r == value,
            },
    {
        match self {
            FeaturedSchema::Normal { value } => value,
            FeaturedSchema::Conditional { value, .. } => value,
        }
    }

    /// Applies `f` to the item, keeping the condition.
    pub fn map<T, F: Fn(V) -> T>(self, f: F) -> (r: FeaturedSchema<T>)
        requires
            match self {
                FeaturedSchema::Normal { value } => f.requires((value,)),
                FeaturedSchema::Conditional { value, .. } => f.requires((value,)),
            },
        ensures
            match self {
                FeaturedSchema::Normal { value } => r matches FeaturedSchema::Normal {
                    value: u,
                } && f.ensures((value,), u),
                FeaturedSchema::Conditional { feature, value } => r matches
                    FeaturedSchema::Conditional { feature: g, value: u } && g@ == feature@
                    && f.ensures((value,), u),
            },
    {
        match self {
            FeaturedSchema::Normal { value } => FeaturedSchema::Normal { value: f(value) },
            FeaturedSchema::Conditional { feature, value } => FeaturedSchema::Conditional {
                feature,
                value: f(value),
            },
        }
    }
}

/// The state schema of a blueprint.
#[derive(Debug, Clone)]
pub struct BlueprintSchema {
    pub fields: Vec<FeaturedSchema<LocalTypeIndex>>,
    pub collections: Vec<BlueprintCollectionSchema<LocalTypeIndex>>,
}

impl Default for BlueprintSchema {
    /// A blueprint without fields or collections.
    fn default() -> (r: Self)
        ensures
            r.fields@.len() == 0,
            r.collections@.len() == 0,
    {
        Self { fields: Vec::new(), collections: Vec::new() }
    }
}

/// Which reference kinds a receiver accepts.
#[derive(Debug, Clone, Copy, PartialEq, Eq, Structural)]
pub struct RefTypes {
    pub normal: bool,
    pub direct_access: bool,
}

#[derive(Debug, Clone, Copy, PartialEq, Eq, Structural)]
pub enum Receiver {
    SelfRef,
    SelfRefMut,
}

/// How a method receives its node.
#[derive(Debug, Clone, Copy, PartialEq, Eq, Structural)]
pub struct ReceiverInfo {
    pub receiver: Receiver,
    pub ref_types: RefTypes,
}

impl ReceiverInfo {
    /// A shared reference through a normal handle.
    pub fn normal_ref() -> (r: Self)
        ensures
            r == (ReceiverInfo {
                receiver: Receiver::SelfRef,
                ref_types: RefTypes { normal: true, direct_access: false },
            }),
    {
        Self {
            receiver: Receiver::SelfRef,
            ref_types: RefTypes { normal: true, direct_access: false },
        }
    }

    /// An exclusive reference through a normal handle.
    pub fn normal_ref_mut() -> (r: Self)
        ensures
            r == (ReceiverInfo {
                receiver: Receiver::SelfRefMut,
                ref_types: RefTypes { normal: true, direct_access: false },
            }),
    {
        Self {
            receiver: Receiver::SelfRefMut,
            ref_types: RefTypes { normal: true, direct_access: false },
        }
    }
}

/// The schema given per instance: extra types the blueprint leaves open.
#[derive(Debug)]
pub struct InstanceSchema {
    pub schema: ScryptoSchema,
    pub type_index: Vec<LocalTypeIndex>,
}

} // verus!

verus! {

/// A constraint a custom type puts on its values.
pub trait CustomTypeValidation: Sized {
}

/// A custom type kind of an extended schema.
pub trait CustomTypeKind: Sized {
    type CustomTypeValidation: CustomTypeValidation;
}

/// An extension of the typed binary format with custom value kinds.
pub trait CustomTypeExtension: Sized {
    type CustomTypeKind: CustomTypeKind;

    fn max_depth() -> u8;

    fn payload_prefix() -> u8;
}

} // verus!
