//! The blueprint-side runtime: what the host exposes to running code (actor,
//! transaction hash, epoch, deterministic ids), the calls it can request, and
//! typed access to substate data read under a lock. The host performs the
//! actual engine calls; the values it answers with come in as plain data.

use vstd::prelude::*;

verus! {

use crate::decode::le16;
use crate::decode::typed_decode_end;
use crate::decode::typed_value_at;
use crate::decode::Decode;
use crate::decode::DecodeError;
use crate::decode::Decoder;
use crate::decode::TYPE_OPTION;
use crate::decode::TYPE_U8;
use crate::decode::TYPE_VEC;
use crate::kernel::dup_bytes;

/// A package, by its address.
#[derive(Debug, Clone)]
pub struct PackageRef(pub Vec<u8>);

/// A component, by its address.
#[derive(Debug, Clone)]
pub struct ComponentRef(pub Vec<u8>);

/// The running entity: a blueprint function, or a component method.
#[derive(Debug, Clone)]
pub enum Actor {
    Blueprint(PackageRef, String),
    Component(ComponentRef, PackageRef, String),
}

/// What the host exposes to the running entity.
#[derive(Debug)]
pub struct RuntimeContext {
    pub actor: Actor,
    pub transaction_hash: Vec<u8>,
    pub current_epoch: u64,
    pub uuid_counter: u128,
}

/// A requested function call, handed back to the host to perform.
#[derive(Debug)]
pub struct CallFunctionInput {
    pub package_ref: PackageRef,
    pub blueprint_name: String,
    pub function: String,
    pub args: Vec<Vec<u8>>,
}

/// A requested method call, handed back to the host to perform.
#[derive(Debug)]
pub struct CallMethodInput {
    pub component_ref: ComponentRef,
    pub method: String,
    pub args: Vec<Vec<u8>>,
}

/// A utility for reading the runtime.
#[derive(Debug)]
pub struct Context {}

impl Context {
    /// The running entity.
    pub fn actor(ctx: &RuntimeContext) -> (r: &Actor)
        ensures
            r == &ctx.actor,
    {
        &ctx.actor
    }

    /// The package of the running entity, whether it runs as a blueprint
    /// function or as a component method.
    pub fn package(ctx: &RuntimeContext) -> (r: PackageRef)
        ensures
            match &ctx.actor {
                Actor::Blueprint(package, _) => r.0@ == package.0@,
                Actor::Component(_, package, _) => r.0@ == package.0@,
            },
    {
        match &ctx.actor {
            Actor::Blueprint(package, _) => PackageRef(dup_bytes(&package.0)),
            Actor::Component(_, package, _) => PackageRef(dup_bytes(&package.0)),
        }
    }

    /// The transaction hash.
    pub fn transaction_hash(ctx: &RuntimeContext) -> (r: Vec<u8>)
        ensures
            r@ == ctx.transaction_hash@,
    {
        dup_bytes(&ctx.transaction_hash)
    }

    /// The current epoch.
    pub fn current_epoch(ctx: &RuntimeContext) -> (r: u64)
        ensures
            r == ctx.current_epoch,
    {
        ctx.current_epoch
    }

    /// A fresh id, deterministic within the transaction: the counter's value,
    /// which then advances.
    pub fn generate_uuid(ctx: &mut RuntimeContext) -> (r: u128)
        requires
            old(ctx).uuid_counter < u128::MAX,
        ensures
            r == old(ctx).uuid_counter,
            final(ctx).uuid_counter == old(ctx).uuid_counter + 1,
            final(ctx).actor == old(ctx).actor,
            final(ctx).transaction_hash == old(ctx).transaction_hash,
            final(ctx).current_epoch == old(ctx).current_epoch,
    {
        let id = ctx.uuid_counter;
        ctx.uuid_counter = ctx.uuid_counter + 1;
        id
    }

    /// Builds the request for a function call on a blueprint.
    pub fn call_function(
        package_ref: PackageRef,
        blueprint_name: &str,
        function: &str,
        args: Vec<Vec<u8>>,
    ) -> (r: CallFunctionInput)
        ensures
            r.package_ref.0@ == package_ref.0@,
            r.blueprint_name@ == blueprint_name@,
            r.function@ == function@,
            r.args == args,
    {
        CallFunctionInput {
            package_ref,
            blueprint_name: blueprint_name.to_owned(),
            function: function.to_owned(),
            args,
        }
    }

    /// Builds the request for a method call on a component.
    pub fn call_method(component_ref: ComponentRef, method: &str, args: Vec<Vec<u8>>) -> (r:
        CallMethodInput)
        ensures
            r.component_ref.0@ == component_ref.0@,
            r.method@ == method@,
            r.args == args,
    {
        CallMethodInput { component_ref, method: method.to_owned(), args }
    }
}

/// What a key-value entry's raw substate holds: the entry may be absent,
/// hold a payload (a byte vector inside an option, each with its type byte
/// and length prefix), or be malformed.
pub enum KvEntryPayload {
    Absent,
    Present(Seq<u8>),
    Malformed,
}

/// Reads a key-value entry's envelope off the raw bytes.
pub open spec fn spec_kv_payload(raw: Seq<u8>) -> KvEntryPayload {
    if raw.len() >= 2 && raw[0] == TYPE_OPTION {
        if raw[1] == 0 {
            KvEntryPayload::Absent
        } else if raw[1] == 1 && raw.len() >= 6 && raw[2] == TYPE_VEC && raw[5] == TYPE_U8 && 6
            + le16(raw, 3) <= raw.len() {
            KvEntryPayload::Present(raw.subrange(6, 6 + le16(raw, 3)))
        } else {
            KvEntryPayload::Malformed
        }
    } else {
        KvEntryPayload::Malformed
    }
}

/// Reads a component state's envelope (a byte vector with its type byte and
/// length prefix) off the raw bytes.
pub open spec fn spec_component_payload(raw: Seq<u8>) -> Option<Seq<u8>> {
    if raw.len() >= 4 && raw[0] == TYPE_VEC && raw[3] == TYPE_U8 && 4 + le16(raw, 1)
        <= raw.len() {
        Some(raw.subrange(4, 4 + le16(raw, 1)))
    } else {
        None
    }
}

/// A well-formed key-value envelope decodes as an option of bytes.
proof fn lemma_kv_envelope_decodes(raw: Seq<u8>)
    requires
        spec_kv_payload(raw) is Present || spec_kv_payload(raw) is Absent,
    ensures
        typed_decode_end::<Option<Vec<u8>>>(raw, 0, true) is Some,
{
    if spec_kv_payload(raw) is Present {
        crate::decode::lemma_u8_chain_end(raw, 6, true, le16(raw, 3) as nat);
    }
}

/// A well-formed component envelope decodes as a byte vector.
proof fn lemma_component_envelope_decodes(raw: Seq<u8>)
    requires
        spec_component_payload(raw) is Some,
    ensures
        typed_decode_end::<Vec<u8>>(raw, 0, true) is Some,
{
    crate::decode::lemma_u8_chain_end(raw, 4, true, le16(raw, 1) as nat);
}

/// Where a substate lives within its node.
#[derive(Debug, Clone)]
pub enum SubstateOffset {
    KeyValueStoreEntry(Vec<u8>),
    ComponentState,
    Generic(u8),
}

/// A value read from a substate, under the lock that guards it.
pub struct DataRef<V> {
    pub lock_handle: u32,
    pub value: V,
}

impl<V> DataRef<V> {
    pub fn new(lock_handle: u32, value: V) -> (r: DataRef<V>)
        ensures
            r.lock_handle == lock_handle,
            r.value == value,
    {
        DataRef { lock_handle, value }
    }

    /// The value read.
    pub fn value(&self) -> (r: &V)
        ensures
            r == &self.value,
    {
        &self.value
    }
}

/// A value read for writing, with where to write it back.
pub struct DataRefMut<V> {
    pub lock_handle: u32,
    pub offset: SubstateOffset,
    pub value: V,
}

impl<V> DataRefMut<V> {
    pub fn new(lock_handle: u32, offset: SubstateOffset, value: V) -> (r: DataRefMut<V>)
        ensures
            r.lock_handle == lock_handle,
            r.offset == offset,
            r.value == value,
    {
        DataRefMut { lock_handle, offset, value }
    }

    /// The value read.
    pub fn value(&self) -> (r: &V)
        ensures
            r == &self.value,
    {
        &self.value
    }

    /// Replaces the value; the host writes it back when the lock is dropped.
    pub fn set_value(&mut self, value: V)
        ensures
            final(self).value == value,
            final(self).lock_handle == old(self).lock_handle,
            final(self).offset == old(self).offset,
    {
        self.value = value;
    }
}

/// A typed pointer at one substate of a node.
pub struct DataPointer<V> {
    pub node_id: Vec<u8>,
    pub offset: SubstateOffset,
    pub marker: core::marker::PhantomData<V>,
}

impl<V: Decode> DataPointer<V> {
    pub fn new(node_id: Vec<u8>, offset: SubstateOffset) -> (r: Self)
        ensures
            r.node_id@ == node_id@,
            r.offset == offset,
    {
        Self { node_id, offset, marker: core::marker::PhantomData }
    }

    /// Reads the substate's value out of what the host returned for the
    /// read: a key-value entry or component state is unwrapped from its
    /// envelope first, anything else is the value itself. The read succeeds
    /// exactly when the envelope is well formed, holds a payload, and the
    /// payload decodes as a value of the expected type.
    pub fn get(&self, lock_handle: u32, raw_substate: &[u8]) -> (r: Result<
        DataRef<V>,
        DecodeError,
    >)
        ensures
            match self.offset {
                SubstateOffset::KeyValueStoreEntry(_) => r is Ok <==> (spec_kv_payload(
                    raw_substate@,
                ) matches KvEntryPayload::Present(b) && typed_decode_end::<V>(b, 0, true)
                    is Some),
                SubstateOffset::ComponentState => r is Ok <==> (spec_component_payload(
                    raw_substate@,
                ) matches Some(b) && typed_decode_end::<V>(b, 0, true) is Some),
                SubstateOffset::Generic(_) => r is Ok <==> typed_decode_end::<V>(raw_substate@,
                    0, true) is Some,
            },
            r matches Ok(d) ==> d.lock_handle == lock_handle && match self.offset {
                SubstateOffset::KeyValueStoreEntry(_) => spec_kv_payload(raw_substate@) matches
                    KvEntryPayload::Present(b) && typed_value_at::<V>(b, 0, true, d.value),
                SubstateOffset::ComponentState => spec_component_payload(raw_substate@) matches
                    Some(b) && typed_value_at::<V>(b, 0, true, d.value),
                SubstateOffset::Generic(_) => typed_value_at::<V>(raw_substate@, 0, true,
                    d.value),
            },
    {
        match &self.offset {
            SubstateOffset::KeyValueStoreEntry(_) => {
                proof {
                    assert(self.offset is KeyValueStoreEntry);
                }
                let mut dec = Decoder::with_metadata(raw_substate);
                let entry = match <Option<Vec<u8>> as Decode>::decode(&mut dec) {
                    Ok(e) => e,
                    Err(e) => {
                        proof {
                            if !(spec_kv_payload(raw_substate@) is Malformed) {
                                lemma_kv_envelope_decodes(raw_substate@);
                            }
                        }
                        return Err(e);
                    }
                };
                let inner = match entry {
                    Some(b) => b,
                    None => { return Err(DecodeError::InvalidIndex(0)); }
                };
                proof {
                    let n = le16(raw_substate@, 3);
                    crate::decode::lemma_u8_chain_end(raw_substate@, 6, true, n as nat);
                    crate::decode::lemma_u8_chain_values(raw_substate@, 6, true, inner@);
                    assert(spec_kv_payload(raw_substate@) == KvEntryPayload::Present(inner@));
                }
                let mut inner_dec = Decoder::with_metadata(inner.as_slice());
                match V::decode(&mut inner_dec) {
                    Ok(v) => Ok(DataRef { lock_handle, value: v }),
                    Err(e) => Err(e),
                }
            }
            SubstateOffset::ComponentState => {
                proof {
                    assert(self.offset is ComponentState);
                }
                let mut dec = Decoder::with_metadata(raw_substate);
                let state = match <Vec<u8> as Decode>::decode(&mut dec) {
                    Ok(b) => b,
                    Err(e) => {
                        proof {
                            if spec_component_payload(raw_substate@) is Some {
                                lemma_component_envelope_decodes(raw_substate@);
                            }
                        }
                        return Err(e);
                    }
                };
                proof {
                    let n = le16(raw_substate@, 1);
                    crate::decode::lemma_u8_chain_end(raw_substate@, 4, true, n as nat);
                    crate::decode::lemma_u8_chain_values(raw_substate@, 4, true, state@);
                    assert(spec_component_payload(raw_substate@) == Some(state@));
                }
                let mut inner_dec = Decoder::with_metadata(state.as_slice());
                match V::decode(&mut inner_dec) {
                    Ok(v) => Ok(DataRef { lock_handle, value: v }),
                    Err(e) => Err(e),
                }
            }
            SubstateOffset::Generic(_) => {
                let mut dec = Decoder::with_metadata(raw_substate);
                match V::decode(&mut dec) {
                    Ok(v) => Ok(DataRef { lock_handle, value: v }),
                    Err(e) => Err(e),
                }
            }
        }
    }

    /// Like `get`, but keeps where the value must be written back.
    pub fn get_mut(&self, lock_handle: u32, raw_substate: &[u8]) -> (r: Result<
        DataRefMut<V>,
        DecodeError,
    >)
        ensures
            match self.offset {
                SubstateOffset::KeyValueStoreEntry(_) => r is Ok <==> (spec_kv_payload(
                    raw_substate@,
                ) matches KvEntryPayload::Present(b) && typed_decode_end::<V>(b, 0, true)
                    is Some),
                SubstateOffset::ComponentState => r is Ok <==> (spec_component_payload(
                    raw_substate@,
                ) matches Some(b) && typed_decode_end::<V>(b, 0, true) is Some),
                SubstateOffset::Generic(_) => r is Ok <==> typed_decode_end::<V>(raw_substate@,
                    0, true) is Some,
            },
            r matches Ok(d) ==> d.lock_handle == lock_handle && match self.offset {
                SubstateOffset::KeyValueStoreEntry(_) => spec_kv_payload(raw_substate@) matches
                    KvEntryPayload::Present(b) && typed_value_at::<V>(b, 0, true, d.value),
                SubstateOffset::ComponentState => spec_component_payload(raw_substate@) matches
                    Some(b) && typed_value_at::<V>(b, 0, true, d.value),
                SubstateOffset::Generic(_) => typed_value_at::<V>(raw_substate@, 0, true,
                    d.value),
            },
    {
        let offset = match &self.offset {
            SubstateOffset::KeyValueStoreEntry(k) => SubstateOffset::KeyValueStoreEntry(
                dup_bytes(k),
            ),
            SubstateOffset::ComponentState => SubstateOffset::ComponentState,
            SubstateOffset::Generic(b) => SubstateOffset::Generic(*b),
        };
        match self.get(lock_handle, raw_substate) {
            Ok(d) => Ok(DataRefMut { lock_handle, offset, value: d.value }),
            Err(e) => Err(e),
        }
    }
}

/// One badge bucket the host tracks: its reference, its resource, and how
/// much it holds.
#[derive(Debug)]
pub struct BadgeLedger {
    pub entries: Vec<(u128, Vec<u8>, u128)>,
}

/// Index of a badge reference in the ledger.
pub open spec fn spec_find_badge(s: Seq<(u128, Vec<u8>, u128)>, rid: u128) -> Option<int>
    decreases s.len(),
{
    if s.len() == 0 {
        None
    } else if s[0].0 == rid {
        Some(0)
    } else {
        match spec_find_badge(s.drop_first(), rid) {
            Some(i) => Some(i + 1),
            None => None,
        }
    }
}

/// A borrowed reference to a badge bucket the host holds.
#[derive(Debug)]
pub struct BadgesRef {
    pub rid: u128,
}

impl BadgesRef {
    /// Wraps a reference id.
    pub fn from(rid: u128) -> (r: Self)
        ensures
            r.rid == rid,
    {
        Self { rid }
    }

    /// How much the referenced bucket holds.
    pub fn amount(&self, ledger: &BadgeLedger) -> (r: Option<u128>)
        ensures
            match spec_find_badge(ledger.entries@, self.rid) {
                Some(i) => r == Some(ledger.entries@[i].2),
                None => r is None,
            },
    {
        match find_badge(ledger, self.rid) {
            Some(i) => Some(ledger.entries[i].2),
            None => None,
        }
    }

    /// Which resource the referenced bucket holds.
    pub fn resource(&self, ledger: &BadgeLedger) -> (r: Option<Vec<u8>>)
        ensures
            match spec_find_badge(ledger.entries@, self.rid) {
                Some(i) => r matches Some(res) && res@ == ledger.entries@[i].1@,
                None => r is None,
            },
    {
        match find_badge(ledger, self.rid) {
            Some(i) => Some(dup_bytes(&ledger.entries[i].1)),
            None => None,
        }
    }

    /// Returns the reference: the host forgets it.
    pub fn destroy(self, ledger: &mut BadgeLedger)
        ensures
            match spec_find_badge(old(ledger).entries@, self.rid) {
                Some(i) => final(ledger).entries@ == old(ledger).entries@.remove(i),
                None => final(ledger).entries@ == old(ledger).entries@,
            },
    {
        match find_badge(ledger, self.rid) {
            Some(i) => {
                let _ = ledger.entries.remove(i);
            }
            None => {}
        }
    }
}

fn find_badge(ledger: &BadgeLedger, rid: u128) -> (r: Option<usize>)
    ensures
        match r {
            Some(i) => i < ledger.entries@.len() && spec_find_badge(ledger.entries@, rid) == Some(
                i as int,
            ),
            None => spec_find_badge(ledger.entries@, rid) is None,
        },
{
    let mut i: usize = 0;
    while i < ledger.entries.len()
        invariant
            i <= ledger.entries@.len(),
            forall|j: int| 0 <= j < i ==> (#[trigger] ledger.entries@[j]).0 != rid,
        decreases ledger.entries@.len() - i,
    {
        if ledger.entries[i].0 == rid {
            proof {
                lemma_find_badge_first(ledger.entries@, rid, i as int);
            }
            return Some(i);
        }
        i = i + 1;
    }
    proof {
        lemma_find_badge_none(ledger.entries@, rid);
    }
    None
}

proof fn lemma_find_badge_first(s: Seq<(u128, Vec<u8>, u128)>, rid: u128, i: int)
    requires
        0 <= i < s.len(),
        s[i].0 == rid,
        forall|j: int| 0 <= j < i ==> (#[trigger] s[j]).0 != rid,
    ensures
        spec_find_badge(s, rid) == Some(i),
    decreases i,
{
    if i > 0 {
        lemma_find_badge_first(s.drop_first(), rid, i - 1);
    }
}

proof fn lemma_find_badge_none(s: Seq<(u128, Vec<u8>, u128)>, rid: u128)
    requires
        forall|j: int| 0 <= j < s.len() ==> (#[trigger] s[j]).0 != rid,
    ensures
        spec_find_badge(s, rid) is None,
    decreases s.len(),
{
    if s.len() > 0 {
        lemma_find_badge_none(s.drop_first(), rid);
    }
}

} // verus!
