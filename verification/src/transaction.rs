//! The validated transaction and the transaction processor's decision logic:
//! manifest-side bucket and proof ids are remapped to kernel-side ids, each
//! instruction resolves to the kernel request the processor issues for it,
//! and resources returned by calls are moved onto the worktop and auth zone.

use vstd::prelude::*;

verus! {

/// A transaction hash.
#[derive(Debug, Clone)]
pub struct Hash(pub Vec<u8>);

/// A non-fungible, as an initial proof carried by the transaction.
#[derive(Debug, Clone)]
pub struct NonFungibleAddress {
    pub resource_address: Vec<u8>,
    pub non_fungible_id: Vec<u8>,
}

/// An argument payload with the bucket and proof ids it references.
#[derive(Debug)]
pub struct ScryptoValue {
    pub raw: Vec<u8>,
    pub bucket_ids: Vec<u32>,
    pub proof_ids: Vec<u32>,
}

/// One manifest instruction.
#[derive(Debug)]
pub enum Instruction {
    TakeFromWorktop { resource_address: Vec<u8> },
    TakeFromWorktopByAmount { amount: u128, resource_address: Vec<u8> },
    TakeFromWorktopByIds { ids: Vec<Vec<u8>>, resource_address: Vec<u8> },
    ReturnToWorktop { bucket_id: u32 },
    AssertWorktopContains { resource_address: Vec<u8> },
    AssertWorktopContainsByAmount { amount: u128, resource_address: Vec<u8> },
    AssertWorktopContainsByIds { ids: Vec<Vec<u8>>, resource_address: Vec<u8> },
    PopFromAuthZone,
    PushToAuthZone { proof_id: u32 },
    ClearAuthZone,
    CreateProofFromAuthZone { resource_address: Vec<u8> },
    CreateProofFromAuthZoneByAmount { amount: u128, resource_address: Vec<u8> },
    CreateProofFromAuthZoneByIds { ids: Vec<Vec<u8>>, resource_address: Vec<u8> },
    CreateProofFromBucket { bucket_id: u32 },
    CloneProof { proof_id: u32 },
    DropProof { proof_id: u32 },
    CallFunction { package_address: Vec<u8>, blueprint_name: String, method_name: String },
    CallMethod { component_address: Vec<u8>, method_name: String },
    CallMethodWithAllResources { component_address: Vec<u8>, method: String },
    PublishPackage { package: Vec<u8> },
}

#[derive(Debug)]
pub struct TransactionHeader {
    pub nonce: u64,
    pub start_epoch_inclusive: u64,
    pub end_epoch_exclusive: u64,
    pub cost_unit_limit: u32,
    pub tip_percentage: u32,
}

#[derive(Debug)]
pub struct TransactionManifest {
    pub instructions: Vec<Instruction>,
    pub blobs: Vec<Vec<u8>>,
}

#[derive(Debug)]
pub struct TransactionIntent {
    pub header: TransactionHeader,
    pub manifest: TransactionManifest,
}

#[derive(Debug)]
pub struct SignedTransactionIntent {
    pub intent: TransactionIntent,
    pub intent_signatures: Vec<Vec<u8>>,
}

#[derive(Debug)]
pub struct NotarizedTransaction {
    pub signed_intent: SignedTransactionIntent,
    pub notary_signature: Vec<u8>,
}

/// A transaction that passed validation, ready for the processor.
#[derive(Debug)]
pub struct ValidatedTransaction {
    pub transaction: NotarizedTransaction,
    pub transaction_hash: Hash,
    pub instructions: Vec<Instruction>,
    pub initial_proofs: Vec<NonFungibleAddress>,
}

impl ValidatedTransaction {
    pub fn transaction_hash(&self) -> (r: &Hash)
        ensures
            r.0@ == self.transaction_hash.0@,
    {
        &self.transaction_hash
    }

    pub fn cost_unit_limit(&self) -> (r: u32)
        ensures
            r == self.transaction.signed_intent.intent.header.cost_unit_limit,
    {
        self.transaction.signed_intent.intent.header.cost_unit_limit
    }

    pub fn tip_percentage(&self) -> (r: u32)
        ensures
            r == self.transaction.signed_intent.intent.header.tip_percentage,
    {
        self.transaction.signed_intent.intent.header.tip_percentage
    }

    pub fn instructions(&self) -> (r: &Vec<Instruction>)
        ensures
            r == &self.instructions,
    {
        &self.instructions
    }

    pub fn initial_proofs(&self) -> (r: &Vec<NonFungibleAddress>)
        ensures
            r == &self.initial_proofs,
    {
        &self.initial_proofs
    }

    pub fn blobs(&self) -> (r: &Vec<Vec<u8>>)
        ensures
            r == &self.transaction.signed_intent.intent.manifest.blobs,
    {
        &self.transaction.signed_intent.intent.manifest.blobs
    }
}

/// A failure of the processor's id bookkeeping.
#[derive(Debug, Clone, Copy, PartialEq, Eq, Structural)]
pub enum ProcessorError {
    BucketNotFound(u32),
    ProofNotFound(u32),
    IdAllocatorOutOfIds,
}

/// Deterministic allocation of manifest-side ids.
#[derive(Debug, Clone, Copy, PartialEq, Eq, Structural)]
pub struct IdAllocator {
    pub next_bucket_id: u32,
    pub next_proof_id: u32,
}

impl IdAllocator {
    pub fn new() -> (r: Self)
        ensures
            r.next_bucket_id == 0,
            r.next_proof_id == 0,
    {
        Self { next_bucket_id: 0, next_proof_id: 0 }
    }

    pub fn new_bucket_id(&mut self) -> (r: Result<u32, ProcessorError>)
        ensures
            old(self).next_bucket_id < u32::MAX ==> r == Ok::<u32, ProcessorError>(
                old(self).next_bucket_id,
            ) && final(self).next_bucket_id == old(self).next_bucket_id + 1,
            old(self).next_bucket_id == u32::MAX ==> r is Err && *final(self) == *old(self),
            final(self).next_proof_id == old(self).next_proof_id,
    {
        if self.next_bucket_id == u32::MAX {
            return Err(ProcessorError::IdAllocatorOutOfIds);
        }
        let id = self.next_bucket_id;
        self.next_bucket_id = self.next_bucket_id + 1;
        Ok(id)
    }

    pub fn new_proof_id(&mut self) -> (r: Result<u32, ProcessorError>)
        ensures
            old(self).next_proof_id < u32::MAX ==> r == Ok::<u32, ProcessorError>(
                old(self).next_proof_id,
            ) && final(self).next_proof_id == old(self).next_proof_id + 1,
            old(self).next_proof_id == u32::MAX ==> r is Err && *final(self) == *old(self),
            final(self).next_bucket_id == old(self).next_bucket_id,
    {
        if self.next_proof_id == u32::MAX {
            return Err(ProcessorError::IdAllocatorOutOfIds);
        }
        let id = self.next_proof_id;
        self.next_proof_id = self.next_proof_id + 1;
        Ok(id)
    }
}

/// The kernel-side id the mapping gives a manifest-side id, first entry
/// winning.
pub open spec fn spec_lookup(s: Seq<(u32, u32)>, k: u32) -> Option<u32>
    decreases s.len(),
{
    if s.len() == 0 {
        None
    } else if s[0].0 == k {
        Some(s[0].1)
    } else {
        spec_lookup(s.drop_first(), k)
    }
}

/// Position of the mapping entry a manifest-side id resolves through.
pub open spec fn spec_lookup_index(s: Seq<(u32, u32)>, k: u32) -> Option<int>
    decreases s.len(),
{
    if s.len() == 0 {
        None
    } else if s[0].0 == k {
        Some(0)
    } else {
        match spec_lookup_index(s.drop_first(), k) {
            Some(i) => Some(i + 1),
            None => None,
        }
    }
}

proof fn lemma_lookup_index_first(s: Seq<(u32, u32)>, k: u32, i: int)
    requires
        0 <= i < s.len(),
        s[i].0 == k,
        forall|j: int| 0 <= j < i ==> (#[trigger] s[j]).0 != k,
    ensures
        spec_lookup_index(s, k) == Some(i),
        spec_lookup(s, k) == Some(s[i].1),
    decreases i,
{
    if i > 0 {
        lemma_lookup_index_first(s.drop_first(), k, i - 1);
    }
}

/// Finds the kernel-side id mapped to a manifest-side id.
fn lookup(s: &Vec<(u32, u32)>, k: u32) -> (r: Option<u32>)
    ensures
        r == spec_lookup(s@, k),
    decreases s@.len(),
{
    let mut i: usize = 0;
    proof {
        assert(s@.skip(0) =~= s@);
    }
    while i < s.len()
        invariant
            i <= s@.len(),
            spec_lookup(s@, k) == spec_lookup(s@.skip(i as int), k),
        decreases s@.len() - i,
    {
        proof {
            assert(s@.skip(i as int)[0] == s@[i as int]);
            assert(s@.skip(i as int).drop_first() =~= s@.skip(i as int + 1));
        }
        if s[i].0 == k {
            return Some(s[i].1);
        }
        i = i + 1;
    }
    proof {
        assert(s@.skip(i as int).len() == 0);
    }
    None
}

/// Index of the mapping entry for a manifest-side id.
fn lookup_index(s: &Vec<(u32, u32)>, k: u32) -> (r: Option<usize>)
    ensures
        match r {
            Some(i) => i < s@.len() && s@[i as int].0 == k && spec_lookup(s@, k) == Some(
                s@[i as int].1,
            ) && spec_lookup_index(s@, k) == Some(i as int),
            None => spec_lookup(s@, k) is None,
        },
{
    let mut i: usize = 0;
    proof {
        assert(s@.skip(0) =~= s@);
    }
    while i < s.len()
        invariant
            i <= s@.len(),
            spec_lookup(s@, k) == spec_lookup(s@.skip(i as int), k),
            forall|j: int| 0 <= j < i ==> (#[trigger] s@[j]).0 != k,
        decreases s@.len() - i,
    {
        proof {
            assert(s@.skip(i as int)[0] == s@[i as int]);
            assert(s@.skip(i as int).drop_first() =~= s@.skip(i as int + 1));
        }
        if s[i].0 == k {
            proof {
                lemma_lookup_index_first(s@, k, i as int);
            }
            return Some(i);
        }
        i = i + 1;
    }
    proof {
        assert(s@.skip(i as int).len() == 0);
    }
    None
}

/// Shuttles resources between the manifest's world and the kernel's: two id
/// remapping tables, the outputs so far, and the id allocator.
pub struct TransactionProcessor {
    transaction: ValidatedTransaction,
    proof_id_mapping: Vec<(u32, u32)>,
    bucket_id_mapping: Vec<(u32, u32)>,
    outputs: Vec<ScryptoValue>,
    id_allocator: IdAllocator,
}

impl TransactionProcessor {
    pub closed spec fn spec_proof_mapping(&self) -> Seq<(u32, u32)> {
        self.proof_id_mapping@
    }

    pub closed spec fn spec_bucket_mapping(&self) -> Seq<(u32, u32)> {
        self.bucket_id_mapping@
    }

    pub closed spec fn spec_outputs(&self) -> Seq<ScryptoValue> {
        self.outputs@
    }

    pub closed spec fn spec_transaction(&self) -> &ValidatedTransaction {
        &self.transaction
    }

    pub closed spec fn spec_allocator(&self) -> IdAllocator {
        self.id_allocator
    }

    pub fn new(transaction: ValidatedTransaction) -> (r: Self)
        ensures
            r.spec_proof_mapping().len() == 0,
            r.spec_bucket_mapping().len() == 0,
            r.spec_outputs().len() == 0,
            *r.spec_transaction() == transaction,
            r.spec_allocator().next_bucket_id == 0,
            r.spec_allocator().next_proof_id == 0,
    {
        Self {
            transaction,
            proof_id_mapping: Vec::new(),
            bucket_id_mapping: Vec::new(),
            outputs: Vec::new(),
            id_allocator: IdAllocator::new(),
        }
    }

    /// The outputs of the instructions run so far, in order.
    pub fn outputs(&self) -> (r: &Vec<ScryptoValue>)
        ensures
            r@ == self.spec_outputs(),
    {
        &self.outputs
    }

    /// Records one instruction's output.
    pub fn record_output(&mut self, output: ScryptoValue)
        ensures
            final(self).spec_outputs() == old(self).spec_outputs().push(output),
            final(self).spec_proof_mapping() == old(self).spec_proof_mapping(),
            final(self).spec_bucket_mapping() == old(self).spec_bucket_mapping(),
    {
        self.outputs.push(output);
    }

    /// Maps a fresh manifest-side bucket id to the kernel-side bucket just
    /// created.
    pub fn record_bucket(&mut self, new_id: u32, real_id: u32)
        ensures
            final(self).spec_bucket_mapping() == old(self).spec_bucket_mapping().push(
                (new_id, real_id),
            ),
            final(self).spec_proof_mapping() == old(self).spec_proof_mapping(),
            final(self).spec_outputs() == old(self).spec_outputs(),
    {
        self.bucket_id_mapping.push((new_id, real_id));
    }

    /// Maps a fresh manifest-side proof id to the kernel-side proof just
    /// created.
    pub fn record_proof(&mut self, new_id: u32, real_id: u32)
        ensures
            final(self).spec_proof_mapping() == old(self).spec_proof_mapping().push(
                (new_id, real_id),
            ),
            final(self).spec_bucket_mapping() == old(self).spec_bucket_mapping(),
            final(self).spec_outputs() == old(self).spec_outputs(),
    {
        self.proof_id_mapping.push((new_id, real_id));
    }

    /// Consumes a manifest-side bucket id, yielding its kernel-side id.
    pub fn take_bucket(&mut self, bucket_id: u32) -> (r: Result<u32, ProcessorError>)
        ensures
            final(self).spec_proof_mapping() == old(self).spec_proof_mapping(),
            final(self).spec_outputs() == old(self).spec_outputs(),
            match spec_lookup(old(self).spec_bucket_mapping(), bucket_id) {
                Some(mapped) => r == Ok::<u32, ProcessorError>(mapped)
                    && final(self).spec_bucket_mapping() == old(self).spec_bucket_mapping().remove(
                    spec_lookup_index(old(self).spec_bucket_mapping(), bucket_id).unwrap()),
                None => r == Err::<u32, ProcessorError>(ProcessorError::BucketNotFound(bucket_id))
                    && final(self).spec_bucket_mapping() == old(self).spec_bucket_mapping(),
            },
    {
        match lookup_index(&self.bucket_id_mapping, bucket_id) {
            Some(i) => {
                let entry = self.bucket_id_mapping.remove(i);
                Ok(entry.1)
            }
            None => Err(ProcessorError::BucketNotFound(bucket_id)),
        }
    }

    /// Consumes a manifest-side proof id, yielding its kernel-side id.
    pub fn take_proof(&mut self, proof_id: u32) -> (r: Result<u32, ProcessorError>)
        ensures
            final(self).spec_bucket_mapping() == old(self).spec_bucket_mapping(),
            final(self).spec_outputs() == old(self).spec_outputs(),
            match spec_lookup(old(self).spec_proof_mapping(), proof_id) {
                Some(mapped) => r == Ok::<u32, ProcessorError>(mapped)
                    && final(self).spec_proof_mapping() == old(self).spec_proof_mapping().remove(
                    spec_lookup_index(old(self).spec_proof_mapping(), proof_id).unwrap()),
                None => r == Err::<u32, ProcessorError>(ProcessorError::ProofNotFound(proof_id))
                    && final(self).spec_proof_mapping() == old(self).spec_proof_mapping(),
            },
    {
        match lookup_index(&self.proof_id_mapping, proof_id) {
            Some(i) => {
                let entry = self.proof_id_mapping.remove(i);
                Ok(entry.1)
            }
            None => Err(ProcessorError::ProofNotFound(proof_id)),
        }
    }

    /// Forgets every manifest-side proof id; `ClearAuthZone` drops them all.
    pub fn clear_proofs(&mut self)
        ensures
            final(self).spec_proof_mapping().len() == 0,
            final(self).spec_bucket_mapping() == old(self).spec_bucket_mapping(),
            final(self).spec_outputs() == old(self).spec_outputs(),
    {
        self.proof_id_mapping.clear();
    }

    /// Allocates a fresh manifest-side bucket id.
    pub fn new_bucket_id(&mut self) -> (r: Result<u32, ProcessorError>)
        ensures
            final(self).spec_proof_mapping() == old(self).spec_proof_mapping(),
            final(self).spec_bucket_mapping() == old(self).spec_bucket_mapping(),
            final(self).spec_outputs() == old(self).spec_outputs(),
            old(self).spec_allocator().next_bucket_id < u32::MAX ==> r == Ok::<
                u32,
                ProcessorError,
            >(old(self).spec_allocator().next_bucket_id)
                && final(self).spec_allocator().next_bucket_id == old(
                self).spec_allocator().next_bucket_id + 1,
            old(self).spec_allocator().next_bucket_id == u32::MAX ==> r is Err,
            final(self).spec_allocator().next_proof_id == old(self).spec_allocator().next_proof_id,
    {
        self.id_allocator.new_bucket_id()
    }

    /// Allocates a fresh manifest-side proof id.
    pub fn new_proof_id(&mut self) -> (r: Result<u32, ProcessorError>)
        ensures
            final(self).spec_proof_mapping() == old(self).spec_proof_mapping(),
            final(self).spec_bucket_mapping() == old(self).spec_bucket_mapping(),
            final(self).spec_outputs() == old(self).spec_outputs(),
            old(self).spec_allocator().next_proof_id < u32::MAX ==> r == Ok::<
                u32,
                ProcessorError,
            >(old(self).spec_allocator().next_proof_id)
                && final(self).spec_allocator().next_proof_id == old(
                self).spec_allocator().next_proof_id + 1,
            old(self).spec_allocator().next_proof_id == u32::MAX ==> r is Err,
            final(self).spec_allocator().next_bucket_id == old(
                self,
            ).spec_allocator().next_bucket_id,
    {
        self.id_allocator.new_proof_id()
    }

    /// Rewrites every manifest-side bucket and proof id in an argument to its
    /// kernel-side id; an unmapped id is a failure.
    pub fn replace_ids(&mut self, value: ScryptoValue) -> (r: Result<ScryptoValue, ProcessorError>)
        ensures
            final(self).spec_proof_mapping() == old(self).spec_proof_mapping(),
            final(self).spec_bucket_mapping() == old(self).spec_bucket_mapping(),
            final(self).spec_outputs() == old(self).spec_outputs(),
            match r {
                Ok(v2) => {
                    &&& v2.raw@ == value.raw@
                    &&& v2.bucket_ids@.len() == value.bucket_ids@.len()
                    &&& (forall|i: int|
                        0 <= i < value.bucket_ids@.len() ==> spec_lookup(
                            old(self).spec_bucket_mapping(),
                            value.bucket_ids@[i],
                        ) == Some(#[trigger] v2.bucket_ids@[i]))
                    &&& v2.proof_ids@.len() == value.proof_ids@.len()
                    &&& (forall|i: int|
                        0 <= i < value.proof_ids@.len() ==> spec_lookup(
                            old(self).spec_proof_mapping(),
                            value.proof_ids@[i],
                        ) == Some(#[trigger] v2.proof_ids@[i]))
                },
                Err(e) => {
                    ||| (e matches ProcessorError::BucketNotFound(b) && (exists|i: int|
                        0 <= i < value.bucket_ids@.len() && (#[trigger] value.bucket_ids@[i]) == b
                            && spec_lookup(old(self).spec_bucket_mapping(), b) is None))
                    ||| (e matches ProcessorError::ProofNotFound(p) && (exists|i: int|
                        0 <= i < value.proof_ids@.len() && (#[trigger] value.proof_ids@[i]) == p
                            && spec_lookup(old(self).spec_proof_mapping(), p) is None))
                },
            },
    {
        let mut new_buckets: Vec<u32> = Vec::new();
        let mut i: usize = 0;
        while i < value.bucket_ids.len()
            invariant
                i <= value.bucket_ids@.len(),
                new_buckets@.len() == i,
                forall|j: int|
                    0 <= j < i ==> spec_lookup(self.bucket_id_mapping@, value.bucket_ids@[j])
                        == Some(#[trigger] new_buckets@[j]),
            decreases value.bucket_ids@.len() - i,
        {
            match lookup(&self.bucket_id_mapping, value.bucket_ids[i]) {
                Some(mapped) => {
                    new_buckets.push(mapped);
                }
                None => {
                    proof {
                        assert(value.bucket_ids@[i as int] == value.bucket_ids@[i as int]);
                    }
                    return Err(ProcessorError::BucketNotFound(value.bucket_ids[i]));
                }
            }
            i = i + 1;
        }
        let mut new_proofs: Vec<u32> = Vec::new();
        let mut k: usize = 0;
        while k < value.proof_ids.len()
            invariant
                k <= value.proof_ids@.len(),
                new_proofs@.len() == k,
                forall|j: int|
                    0 <= j < k ==> spec_lookup(self.proof_id_mapping@, value.proof_ids@[j])
                        == Some(#[trigger] new_proofs@[j]),
            decreases value.proof_ids@.len() - k,
        {
            match lookup(&self.proof_id_mapping, value.proof_ids[k]) {
                Some(mapped) => {
                    new_proofs.push(mapped);
                }
                None => {
                    return Err(ProcessorError::ProofNotFound(value.proof_ids[k]));
                }
            }
            k = k + 1;
        }
        Ok(ScryptoValue { raw: value.raw, bucket_ids: new_buckets, proof_ids: new_proofs })
    }
}

} // verus!

verus! {

/// A follow-up the processor issues after a call returns.
#[derive(Debug, Clone, Copy, PartialEq, Eq, Structural)]
pub enum AutoMove {
    PushToAuthZone { proof_id: u32 },
    PutOnWorktop { bucket_id: u32 },
}

impl TransactionProcessor {
    /// Plans the automatic moves after a call returns: every returned proof
    /// is pushed onto the auth zone, then every returned bucket is put onto
    /// the worktop. This is how chained calls compose without explicit
    /// plumbing.
    pub fn auto_move_requests(result: &ScryptoValue) -> (r: Vec<AutoMove>)
        ensures
            r@.len() == result.proof_ids@.len() + result.bucket_ids@.len(),
            forall|i: int|
                0 <= i < result.proof_ids@.len() ==> r@[i] == (AutoMove::PushToAuthZone {
                    proof_id: result.proof_ids@[i],
                }),
            forall|i: int|
                0 <= i < result.bucket_ids@.len() ==> r@[result.proof_ids@.len() + i] == (
                AutoMove::PutOnWorktop { bucket_id: result.bucket_ids@[i] }),
    {
        let mut out: Vec<AutoMove> = Vec::new();
        let mut i: usize = 0;
        while i < result.proof_ids.len()
            invariant
                i <= result.proof_ids@.len(),
                out@.len() == i,
                forall|j: int|
                    0 <= j < i ==> out@[j] == (AutoMove::PushToAuthZone {
                        proof_id: result.proof_ids@[j],
                    }),
            decreases result.proof_ids@.len() - i,
        {
            out.push(AutoMove::PushToAuthZone { proof_id: result.proof_ids[i] });
            i = i + 1;
        }
        let mut k: usize = 0;
        while k < result.bucket_ids.len()
            invariant
                k <= result.bucket_ids@.len(),
                out@.len() == result.proof_ids@.len() + k,
                forall|j: int|
                    0 <= j < result.proof_ids@.len() ==> out@[j] == (AutoMove::PushToAuthZone {
                        proof_id: result.proof_ids@[j],
                    }),
                forall|j: int|
                    0 <= j < k ==> out@[result.proof_ids@.len() + j] == (AutoMove::PutOnWorktop {
                        bucket_id: result.bucket_ids@[j],
                    }),
            decreases result.bucket_ids@.len() - k,
        {
            out.push(AutoMove::PutOnWorktop { bucket_id: result.bucket_ids[k] });
            k = k + 1;
        }
        out
    }
}

} // verus!
