//! The proof blueprint's invocations: reading a proof's amount, ids and
//! resource, and cloning it. A proof's substate is plain data here; the
//! kernel reads it out under a lock and hands it in.

use vstd::prelude::*;

verus! {

use crate::decode::DecodeError;
use crate::kernel::CallFrameUpdate;
use crate::kernel::dup_bytes;

/// A failure of a proof operation.
#[derive(Debug)]
pub enum ProofError {
    EmptyProofNotAllowed,
    InsufficientBaseProofs,
    NonFungibleOperationNotAllowed,
    FungibleOperationNotAllowed,
    CouldNotCreateProof,
    InvalidRequestData(DecodeError),
}

/// What a proof attests, as stored in its substate.
#[derive(Debug)]
pub struct ProofSubstate {
    pub resource_address: Vec<u8>,
    pub is_fungible: bool,
    pub total_amount: u128,
    pub non_fungible_ids: Vec<Vec<u8>>,
}

/// A method of the proof blueprint.
#[derive(Debug, Clone, Copy, PartialEq, Eq, Structural)]
pub enum ProofFn {
    GetAmount,
    GetNonFungibleIds,
    GetResourceAddress,
    CloneProof,
}

/// The actor an invocation resolved to: a proof method on a receiver.
#[derive(Debug)]
pub struct ResolvedActor {
    pub fn_ident: ProofFn,
    pub receiver: Vec<u8>,
}

pub struct ProofGetAmountInvocation {
    pub receiver: Vec<u8>,
}

impl ProofGetAmountInvocation {
    /// Resolves to the method actor; the receiver is copied as a reference.
    pub fn resolve(self) -> (r: (ResolvedActor, CallFrameUpdate))
        ensures
            r.0.fn_ident == ProofFn::GetAmount,
            r.0.receiver@ == self.receiver@,
            r.1.nodes_to_move@.len() == 0,
            r.1.node_refs_to_copy@.len() == 1 && r.1.node_refs_to_copy@[0]@ == self.receiver@,
    {
        let update = CallFrameUpdate::copy_ref(dup_bytes(&self.receiver));
        (ResolvedActor { fn_ident: ProofFn::GetAmount, receiver: self.receiver }, update)
    }

    /// The proof's total amount.
    pub fn execute(self, proof: &ProofSubstate) -> (r: u128)
        ensures
            r == proof.total_amount,
    {
        proof.total_amount
    }
}

pub struct ProofGetNonFungibleIdsInvocation {
    pub receiver: Vec<u8>,
}

impl ProofGetNonFungibleIdsInvocation {
    pub fn resolve(self) -> (r: (ResolvedActor, CallFrameUpdate))
        ensures
            r.0.fn_ident == ProofFn::GetNonFungibleIds,
            r.0.receiver@ == self.receiver@,
            r.1.nodes_to_move@.len() == 0,
            r.1.node_refs_to_copy@.len() == 1 && r.1.node_refs_to_copy@[0]@ == self.receiver@,
    {
        let update = CallFrameUpdate::copy_ref(dup_bytes(&self.receiver));
        (ResolvedActor { fn_ident: ProofFn::GetNonFungibleIds, receiver: self.receiver }, update)
    }

    /// The proof's non-fungible local ids; refused on a fungible proof.
    pub fn execute(self, proof: &ProofSubstate) -> (r: Result<Vec<Vec<u8>>, ProofError>)
        ensures
            proof.is_fungible ==> (r matches Err(e) && e is NonFungibleOperationNotAllowed),
            !proof.is_fungible ==> (r matches Ok(ids) && ids@.len()
                == proof.non_fungible_ids@.len() && (forall|i: int|
                0 <= i < ids@.len() ==> (#[trigger] ids@[i])@ == proof.non_fungible_ids@[i]@)),
    {
        if proof.is_fungible {
            return Err(ProofError::NonFungibleOperationNotAllowed);
        }
        let mut out: Vec<Vec<u8>> = Vec::new();
        let mut i: usize = 0;
        while i < proof.non_fungible_ids.len()
            invariant
                i <= proof.non_fungible_ids@.len(),
                out@.len() == i,
                forall|j: int|
                    0 <= j < i ==> (#[trigger] out@[j])@ == proof.non_fungible_ids@[j]@,
            decreases proof.non_fungible_ids@.len() - i,
        {
            out.push(dup_bytes(&proof.non_fungible_ids[i]));
            i = i + 1;
        }
        Ok(out)
    }
}

pub struct ProofGetResourceAddressInvocation {
    pub receiver: Vec<u8>,
}

impl ProofGetResourceAddressInvocation {
    pub fn resolve(self) -> (r: (ResolvedActor, CallFrameUpdate))
        ensures
            r.0.fn_ident == ProofFn::GetResourceAddress,
            r.0.receiver@ == self.receiver@,
            r.1.nodes_to_move@.len() == 0,
            r.1.node_refs_to_copy@.len() == 1 && r.1.node_refs_to_copy@[0]@ == self.receiver@,
    {
        let update = CallFrameUpdate::copy_ref(dup_bytes(&self.receiver));
        (ResolvedActor { fn_ident: ProofFn::GetResourceAddress, receiver: self.receiver }, update)
    }

    /// The proof's resource; the resource's global address is copied back to
    /// the caller as a reference.
    pub fn execute(self, proof: &ProofSubstate) -> (r: (Vec<u8>, CallFrameUpdate))
        ensures
            r.0@ == proof.resource_address@,
            r.1.nodes_to_move@.len() == 0,
            r.1.node_refs_to_copy@.len() == 1 && r.1.node_refs_to_copy@[0]@
                == proof.resource_address@,
    {
        let update = CallFrameUpdate::copy_ref(dup_bytes(&proof.resource_address));
        (dup_bytes(&proof.resource_address), update)
    }
}

pub struct ProofCloneInvocation {
    pub receiver: Vec<u8>,
}

impl ProofCloneInvocation {
    pub fn resolve(self) -> (r: (ResolvedActor, CallFrameUpdate))
        ensures
            r.0.fn_ident == ProofFn::CloneProof,
            r.0.receiver@ == self.receiver@,
            r.1.nodes_to_move@.len() == 0,
            r.1.node_refs_to_copy@.len() == 1 && r.1.node_refs_to_copy@[0]@ == self.receiver@,
    {
        let update = CallFrameUpdate::copy_ref(dup_bytes(&self.receiver));
        (ResolvedActor { fn_ident: ProofFn::CloneProof, receiver: self.receiver }, update)
    }

    /// Clones the proof into a freshly allocated node, which moves to the
    /// caller.
    pub fn execute(self, proof: &ProofSubstate, allocated_node_id: Vec<u8>) -> (r: (
        ProofSubstate,
        CallFrameUpdate,
    ))
        ensures
            r.0.resource_address@ == proof.resource_address@,
            r.0.is_fungible == proof.is_fungible,
            r.0.total_amount == proof.total_amount,
            r.0.non_fungible_ids@.len() == proof.non_fungible_ids@.len(),
            forall|i: int|
                0 <= i < proof.non_fungible_ids@.len() ==> (#[trigger] r.0.non_fungible_ids@[i])@
                    == proof.non_fungible_ids@[i]@,
            r.1.nodes_to_move@.len() == 1 && r.1.nodes_to_move@[0]@ == allocated_node_id@,
            r.1.node_refs_to_copy@.len() == 0,
    {
        let mut ids: Vec<Vec<u8>> = Vec::new();
        let mut i: usize = 0;
        while i < proof.non_fungible_ids.len()
            invariant
                i <= proof.non_fungible_ids@.len(),
                ids@.len() == i,
                forall|j: int|
                    0 <= j < i ==> (#[trigger] ids@[j])@ == proof.non_fungible_ids@[j]@,
            decreases proof.non_fungible_ids@.len() - i,
        {
            ids.push(dup_bytes(&proof.non_fungible_ids[i]));
            i = i + 1;
        }
        let cloned = ProofSubstate {
            resource_address: dup_bytes(&proof.resource_address),
            is_fungible: proof.is_fungible,
            total_amount: proof.total_amount,
            non_fungible_ids: ids,
        };
        let update = CallFrameUpdate::move_node(allocated_node_id);
        (cloned, update)
    }
}

} // verus!
