//! The system layer's decisions: which export an invocation runs, whether a
//! receiver matches, which hook a substate lock fault virtualizes through,
//! which transient nodes an automatic drop must clean up, and whether a node
//! may persist.

use vstd::prelude::*;

verus! {

use crate::schema::LocalTypeIndex;
use crate::schema::ReceiverInfo;
use crate::schema::ScryptoSchema;
use crate::util::bytes_eq;

/// What a lock handle was opened for.
#[derive(Debug)]
pub enum SystemLockData {
    KeyValueEntry(KeyValueEntryLockData),
    Field(FieldLockData),
    Plain,
}

#[derive(Debug)]
pub enum KeyValueEntryLockData {
    Read,
    Write { schema: ScryptoSchema, index: LocalTypeIndex, can_own: bool },
    BlueprintWrite { package_address: Vec<u8>, blueprint: String, can_own: bool },
}

#[derive(Debug)]
pub enum FieldLockData {
    Read,
    Write { package_address: Vec<u8>, blueprint: String },
}

impl SystemLockData {
    /// Whether the lock was opened on a key-value entry.
    pub fn is_kv_entry(&self) -> (r: bool)
        ensures
            r == (self is KeyValueEntry),
    {
        matches!(self, SystemLockData::KeyValueEntry(..))
    }
}

impl Default for SystemLockData {
    /// A lock opened without particular data.
    fn default() -> (r: Self)
        ensures
            r is Plain,
    {
        SystemLockData::Plain
    }
}

/// A blueprint of a package, at a version.
#[derive(Debug, Clone)]
pub struct CanonicalBlueprintId {
    pub address: Vec<u8>,
    pub blueprint: String,
    pub version: u32,
}

/// A hook a blueprint may export.
#[derive(Debug, Clone, Copy, PartialEq, Eq, Structural)]
pub enum BlueprintHook {
    OnVirtualize,
    OnDrop,
    OnMove,
}

/// One function of a blueprint's interface: its receiver expectations and
/// the export that implements it.
#[derive(Debug)]
pub struct FunctionSchema {
    pub receiver: Option<ReceiverInfo>,
    pub input: LocalTypeIndex,
    pub output: LocalTypeIndex,
    pub export: String,
}

/// A blueprint's cached definition: interface, hook exports, and whether its
/// objects are transient.
#[derive(Debug)]
pub struct BlueprintDefinition {
    pub functions: Vec<(String, FunctionSchema)>,
    pub hook_exports: Vec<(BlueprintHook, String)>,
    pub is_transient: bool,
}

/// A schema or dispatch mismatch between caller and callee.
#[derive(Debug)]
pub enum SystemUpstreamError {
    FnNotFound(String),
    HookNotFound(BlueprintHook),
    InputDecodeError,
    OutputDecodeError,
    ReceiverNotMatch(String),
    InvalidInvocation,
}

/// Index of the function with the given name.
pub open spec fn spec_find_function(s: Seq<(String, FunctionSchema)>, ident: Seq<u8>) -> Option<
    int,
>
    decreases s.len(),
{
    if s.len() == 0 {
        None
    } else if vstd::utf8::encode_utf8(s[0].0@) == ident {
        Some(0)
    } else {
        match spec_find_function(s.drop_first(), ident) {
            Some(i) => Some(i + 1),
            None => None,
        }
    }
}

/// Index of the export for the given hook.
pub open spec fn spec_find_hook(s: Seq<(BlueprintHook, String)>, hook: BlueprintHook) -> Option<
    int,
>
    decreases s.len(),
{
    if s.len() == 0 {
        None
    } else if s[0].0 == hook {
        Some(0)
    } else {
        match spec_find_hook(s.drop_first(), hook) {
            Some(i) => Some(i + 1),
            None => None,
        }
    }
}

/// Whether a function's receiver expectations fit how it is being invoked:
/// a method needs a receiver whose access kind matches its declared
/// reference types; a function takes none.
pub open spec fn spec_receiver_matches(
    receiver: Option<ReceiverInfo>,
    has_receiver: bool,
    is_direct_access: bool,
) -> bool {
    match receiver {
        Some(info) => has_receiver && is_direct_access == info.ref_types.direct_access,
        None => !has_receiver,
    }
}

impl BlueprintDefinition {
    fn find_function<'a>(&'a self, ident: &str) -> (r: Option<&'a FunctionSchema>)
        ensures
            match spec_find_function(self.functions@, vstd::utf8::encode_utf8(ident@)) {
                Some(i) => r matches Some(f) && f == &self.functions@[i].1,
                None => r is None,
            },
    {
        let mut i: usize = 0;
        while i < self.functions.len()
            invariant
                i <= self.functions@.len(),
                forall|j: int|
                    0 <= j < i ==> vstd::utf8::encode_utf8((#[trigger] self.functions@[j]).0@)
                        != vstd::utf8::encode_utf8(ident@),
            decreases self.functions@.len() - i,
        {
            if crate::auth::str_eq(self.functions[i].0.as_str(), ident) {
                proof {
                    lemma_find_function_first(self.functions@, vstd::utf8::encode_utf8(ident@),
                        i as int);
                }
                return Some(&self.functions[i].1);
            }
            i = i + 1;
        }
        proof {
            lemma_find_function_none(self.functions@, vstd::utf8::encode_utf8(ident@));
        }
        None
    }

    /// The export the hook runs through, if the blueprint declares it.
    pub fn hook_export<'a>(&'a self, hook: BlueprintHook) -> (r: Option<&'a String>)
        ensures
            match spec_find_hook(self.hook_exports@, hook) {
                Some(i) => r matches Some(e) && e == &self.hook_exports@[i].1,
                None => r is None,
            },
    {
        let mut i: usize = 0;
        while i < self.hook_exports.len()
            invariant
                i <= self.hook_exports@.len(),
                forall|j: int| 0 <= j < i ==> (#[trigger] self.hook_exports@[j]).0 != hook,
            decreases self.hook_exports@.len() - i,
        {
            let matches_hook = match (self.hook_exports[i].0, hook) {
                (BlueprintHook::OnVirtualize, BlueprintHook::OnVirtualize) => true,
                (BlueprintHook::OnDrop, BlueprintHook::OnDrop) => true,
                (BlueprintHook::OnMove, BlueprintHook::OnMove) => true,
                _ => false,
            };
            if matches_hook {
                proof {
                    lemma_find_hook_first(self.hook_exports@, hook, i as int);
                }
                return Some(&self.hook_exports[i].1);
            }
            i = i + 1;
        }
        proof {
            lemma_find_hook_none(self.hook_exports@, hook);
        }
        None
    }
}

proof fn lemma_find_function_first(s: Seq<(String, FunctionSchema)>, ident: Seq<u8>, i: int)
    requires
        0 <= i < s.len(),
        vstd::utf8::encode_utf8(s[i].0@) == ident,
        forall|j: int| 0 <= j < i ==> vstd::utf8::encode_utf8((#[trigger] s[j]).0@) != ident,
    ensures
        spec_find_function(s, ident) == Some(i),
    decreases i,
{
    if i > 0 {
        lemma_find_function_first(s.drop_first(), ident, i - 1);
    }
}

proof fn lemma_find_function_none(s: Seq<(String, FunctionSchema)>, ident: Seq<u8>)
    requires
        forall|j: int| 0 <= j < s.len() ==> vstd::utf8::encode_utf8((#[trigger] s[j]).0@) != ident,
    ensures
        spec_find_function(s, ident) is None,
    decreases s.len(),
{
    if s.len() > 0 {
        lemma_find_function_none(s.drop_first(), ident);
    }
}

proof fn lemma_find_hook_first(s: Seq<(BlueprintHook, String)>, hook: BlueprintHook, i: int)
    requires
        0 <= i < s.len(),
        s[i].0 == hook,
        forall|j: int| 0 <= j < i ==> (#[trigger] s[j]).0 != hook,
    ensures
        spec_find_hook(s, hook) == Some(i),
    decreases i,
{
    if i > 0 {
        lemma_find_hook_first(s.drop_first(), hook, i - 1);
    }
}

proof fn lemma_find_hook_none(s: Seq<(BlueprintHook, String)>, hook: BlueprintHook)
    requires
        forall|j: int| 0 <= j < s.len() ==> (#[trigger] s[j]).0 != hook,
    ensures
        spec_find_hook(s, hook) is None,
    decreases s.len(),
{
    if s.len() > 0 {
        lemma_find_hook_none(s.drop_first(), hook);
    }
}

/// The blueprint and schema caches the system keeps per transaction, and the
/// decisions it takes between the kernel and user code.
pub struct SystemConfig {
    pub blueprint_cache: Vec<(CanonicalBlueprintId, BlueprintDefinition)>,
    pub schema_cache: Vec<(Vec<u8>, ScryptoSchema)>,
}

impl SystemConfig {
    pub fn new() -> (r: Self)
        ensures
            r.blueprint_cache@.len() == 0,
            r.schema_cache@.len() == 0,
    {
        Self { blueprint_cache: Vec::new(), schema_cache: Vec::new() }
    }

    /// The cached definition of a blueprint, if it was loaded.
    pub fn load_blueprint_definition<'a>(&'a self, address: &Vec<u8>, blueprint: &str) -> (r:
        Option<&'a BlueprintDefinition>)
        ensures
            match spec_find_blueprint(self.blueprint_cache@, address@, vstd::utf8::encode_utf8(
                blueprint@,
            )) {
                Some(i) => r matches Some(d) && d == &self.blueprint_cache@[i].1,
                None => r is None,
            },
    {
        let mut i: usize = 0;
        while i < self.blueprint_cache.len()
            invariant
                i <= self.blueprint_cache@.len(),
                forall|j: int|
                    0 <= j < i ==> !((#[trigger] self.blueprint_cache@[j]).0.address@ == address@
                        && vstd::utf8::encode_utf8(self.blueprint_cache@[j].0.blueprint@)
                        == vstd::utf8::encode_utf8(blueprint@)),
            decreases self.blueprint_cache@.len() - i,
        {
            let key = &self.blueprint_cache[i].0;
            if bytes_eq(key.address.as_slice(), address.as_slice()) && crate::auth::str_eq(
                key.blueprint.as_str(),
                blueprint,
            ) {
                proof {
                    lemma_find_blueprint_first(self.blueprint_cache@, address@,
                        vstd::utf8::encode_utf8(blueprint@), i as int);
                }
                return Some(&self.blueprint_cache[i].1);
            }
            i = i + 1;
        }
        proof {
            lemma_find_blueprint_none(self.blueprint_cache@, address@,
                vstd::utf8::encode_utf8(blueprint@));
        }
        None
    }

    /// Resolves a function invocation upstream of execution: the function
    /// must exist, and the receiver handed in must fit what it declares;
    /// what comes back is the export to execute.
    pub fn invoke_upstream<'a>(
        definition: &'a BlueprintDefinition,
        ident: &str,
        has_receiver: bool,
        is_direct_access: bool,
    ) -> (r: Result<&'a String, SystemUpstreamError>)
        ensures
            match spec_find_function(definition.functions@, vstd::utf8::encode_utf8(ident@)) {
                Some(i) => {
                    if spec_receiver_matches(definition.functions@[i].1.receiver, has_receiver,
                        is_direct_access) {
                        r matches Ok(e) && e == &definition.functions@[i].1.export
                    } else {
                        r matches Err(e) && e is ReceiverNotMatch
                    }
                },
                None => r matches Err(e) && e is FnNotFound,
            },
    {
        let function_schema = match definition.find_function(ident) {
            Some(f) => f,
            None => {
                return Err(SystemUpstreamError::FnNotFound(ident.to_owned()));
            }
        };
        match &function_schema.receiver {
            Some(receiver_info) => {
                if !has_receiver || is_direct_access != receiver_info.ref_types.direct_access {
                    return Err(SystemUpstreamError::ReceiverNotMatch(ident.to_owned()));
                }
            }
            None => {
                if has_receiver {
                    return Err(SystemUpstreamError::ReceiverNotMatch(ident.to_owned()));
                }
            }
        }
        Ok(&function_schema.export)
    }

    /// Resolves a hook invocation: the blueprint must export the hook.
    pub fn resolve_hook<'a>(definition: &'a BlueprintDefinition, hook: BlueprintHook) -> (r:
        Result<&'a String, SystemUpstreamError>)
        ensures
            match spec_find_hook(definition.hook_exports@, hook) {
                Some(i) => r matches Ok(e) && e == &definition.hook_exports@[i].1,
                None => r matches Err(e) && e matches SystemUpstreamError::HookNotFound(h) && h
                    == hook,
            },
    {
        match definition.hook_export(hook) {
            Some(e) => Ok(e),
            None => Err(SystemUpstreamError::HookNotFound(hook)),
        }
    }
}

/// Index of the cached blueprint with the given package and name.
pub open spec fn spec_find_blueprint(
    s: Seq<(CanonicalBlueprintId, BlueprintDefinition)>,
    address: Seq<u8>,
    blueprint: Seq<u8>,
) -> Option<int>
    decreases s.len(),
{
    if s.len() == 0 {
        None
    } else if s[0].0.address@ == address && vstd::utf8::encode_utf8(s[0].0.blueprint@)
        == blueprint {
        Some(0)
    } else {
        match spec_find_blueprint(s.drop_first(), address, blueprint) {
            Some(i) => Some(i + 1),
            None => None,
        }
    }
}

proof fn lemma_find_blueprint_first(
    s: Seq<(CanonicalBlueprintId, BlueprintDefinition)>,
    address: Seq<u8>,
    blueprint: Seq<u8>,
    i: int,
)
    requires
        0 <= i < s.len(),
        s[i].0.address@ == address && vstd::utf8::encode_utf8(s[i].0.blueprint@) == blueprint,
        forall|j: int|
            0 <= j < i ==> !((#[trigger] s[j]).0.address@ == address && vstd::utf8::encode_utf8(
                s[j].0.blueprint@,
            ) == blueprint),
    ensures
        spec_find_blueprint(s, address, blueprint) == Some(i),
    decreases i,
{
    if i > 0 {
        lemma_find_blueprint_first(s.drop_first(), address, blueprint, i - 1);
    }
}

proof fn lemma_find_blueprint_none(
    s: Seq<(CanonicalBlueprintId, BlueprintDefinition)>,
    address: Seq<u8>,
    blueprint: Seq<u8>,
)
    requires
        forall|j: int|
            0 <= j < s.len() ==> !((#[trigger] s[j]).0.address@ == address
                && vstd::utf8::encode_utf8(s[j].0.blueprint@) == blueprint),
    ensures
        spec_find_blueprint(s, address, blueprint) is None,
    decreases s.len(),
{
    if s.len() > 0 {
        lemma_find_blueprint_none(s.drop_first(), address, blueprint);
    }
}

/// What kind of object a transient node holds, as its type info names it.
#[derive(Debug, Clone, Copy, PartialEq, Eq, Structural)]
pub enum TransientNodeKind {
    FungibleProof,
    NonFungibleProof,
    Other,
}

/// Plans the automatic drop at a frame's end: the positions of exactly the
/// proof nodes among the frame's transient nodes, in order. Every proof is
/// planned for dropping; nothing else is touched.
pub fn auto_drop_plan(nodes: &Vec<(Vec<u8>, TransientNodeKind)>) -> (r: Vec<usize>)
    ensures
        forall|k: int|
            0 <= k < r@.len() ==> (#[trigger] r@[k]) < nodes@.len() && (nodes@[
                r@[k] as int].1 is FungibleProof || nodes@[r@[k] as int].1 is NonFungibleProof),
        forall|j: int|
            0 <= j < nodes@.len() && ((#[trigger] nodes@[j]).1 is FungibleProof || nodes@[j].1
                is NonFungibleProof) ==> exists|k: int|
                0 <= k < r@.len() && (#[trigger] r@[k]) == j,
        forall|k1: int, k2: int| 0 <= k1 < k2 < r@.len() ==> r@[k1] < r@[k2],
{
    let mut out: Vec<usize> = Vec::new();
    let mut i: usize = 0;
    while i < nodes.len()
        invariant
            i <= nodes@.len(),
            forall|k: int|
                0 <= k < out@.len() ==> (#[trigger] out@[k]) < i && (nodes@[out@[k] as int].1
                    is FungibleProof || nodes@[out@[k] as int].1 is NonFungibleProof),
            forall|j: int|
                0 <= j < i && ((#[trigger] nodes@[j]).1 is FungibleProof || nodes@[j].1
                    is NonFungibleProof) ==> exists|k: int|
                    0 <= k < out@.len() && (#[trigger] out@[k]) == j,
            forall|k1: int, k2: int| 0 <= k1 < k2 < out@.len() ==> out@[k1] < out@[k2],
        decreases nodes@.len() - i,
    {
        let is_proof = matches!(nodes[i].1, TransientNodeKind::FungibleProof
            | TransientNodeKind::NonFungibleProof);
        if is_proof {
            let ghost before = out@;
            out.push(i);
            proof {
                assert forall|j: int|
                    0 <= j < i + 1 && ((#[trigger] nodes@[j]).1 is FungibleProof || nodes@[j].1
                        is NonFungibleProof) implies exists|k: int|
                    0 <= k < out@.len() && (#[trigger] out@[k]) == j by {
                    if j == i as int {
                        assert(out@[out@.len() - 1] == j);
                    } else {
                        let k0 = choose|k: int| 0 <= k < before.len() && before[k] == j;
                        assert(out@[k0] == j);
                    }
                }
            }
        }
        i = i + 1;
    }
    out
}

/// Which blueprint a substate lock fault on a virtual address virtualizes
/// through: virtual accounts through the account blueprint, virtual
/// identities through the identity blueprint, nothing else.
#[derive(Debug, Clone, Copy, PartialEq, Eq, Structural)]
pub enum VirtualizationTarget {
    Account { variant_id: u8 },
    Identity { variant_id: u8 },
}

pub fn on_substate_lock_fault(entity_type: crate::hrp::EntityType) -> (r: Option<
    VirtualizationTarget,
>)
    ensures
        match entity_type {
            crate::hrp::EntityType::GlobalVirtualSecp256k1Account => r == Some(
                VirtualizationTarget::Account { variant_id: 0u8 },
            ),
            crate::hrp::EntityType::GlobalVirtualEd25519Account => r == Some(
                VirtualizationTarget::Account { variant_id: 1u8 },
            ),
            crate::hrp::EntityType::GlobalVirtualSecp256k1Identity => r == Some(
                VirtualizationTarget::Identity { variant_id: 0u8 },
            ),
            crate::hrp::EntityType::GlobalVirtualEd25519Identity => r == Some(
                VirtualizationTarget::Identity { variant_id: 1u8 },
            ),
            _ => r is None,
        },
{
    match entity_type {
        crate::hrp::EntityType::GlobalVirtualSecp256k1Account => Some(
            VirtualizationTarget::Account { variant_id: 0 },
        ),
        crate::hrp::EntityType::GlobalVirtualEd25519Account => Some(
            VirtualizationTarget::Account { variant_id: 1 },
        ),
        crate::hrp::EntityType::GlobalVirtualSecp256k1Identity => Some(
            VirtualizationTarget::Identity { variant_id: 0 },
        ),
        crate::hrp::EntityType::GlobalVirtualEd25519Identity => Some(
            VirtualizationTarget::Identity { variant_id: 1 },
        ),
        _ => None,
    }
}

/// What a node's type info names it as, for the persistence check.
#[derive(Debug, Clone, Copy, PartialEq, Eq, Structural)]
pub enum TypeInfoKind {
    Object { transient_blueprint: bool },
    KeyValueStore,
    GlobalAddressReservation,
    GlobalAddressPhantom,
}

/// Whether a node leaving the heap may persist: objects of transient
/// blueprints may not, address reservations may not, and a node without
/// type info may not.
pub fn on_persist_node(type_info: Option<TypeInfoKind>) -> (r: bool)
    ensures
        r == match type_info {
            Some(TypeInfoKind::Object { transient_blueprint }) => !transient_blueprint,
            Some(TypeInfoKind::KeyValueStore) => true,
            Some(TypeInfoKind::GlobalAddressReservation) => false,
            Some(TypeInfoKind::GlobalAddressPhantom) => true,
            None => false,
        },
{
    match type_info {
        Some(TypeInfoKind::Object { transient_blueprint }) => !transient_blueprint,
        Some(TypeInfoKind::KeyValueStore) => true,
        Some(TypeInfoKind::GlobalAddressReservation) => false,
        Some(TypeInfoKind::GlobalAddressPhantom) => true,
        None => false,
    }
}

/// Whether a hook runs when a node is dropped or moved: only objects whose
/// blueprint exports the hook.
pub fn on_drop_or_move_hook<'a>(
    type_info: TypeInfoKind,
    definition: Option<&'a BlueprintDefinition>,
    hook: BlueprintHook,
) -> (r: Option<&'a String>)
    ensures
        ({
            let looked = match (type_info, definition) {
                (TypeInfoKind::Object { .. }, Some(d)) => spec_find_hook(d.hook_exports@, hook),
                _ => None,
            };
            match looked {
                Some(i) => r matches Some(e) && e == &definition.unwrap().hook_exports@[i].1,
                None => r is None,
            }
        }),
{
    match (type_info, definition) {
        (TypeInfoKind::Object { .. }, Some(d)) => d.hook_export(hook),
        _ => None,
    }
}

} // verus!
