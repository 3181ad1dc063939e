//! The kernel's invocation plumbing: the payload a call frame push carries,
//! the resolved invocation handed to the executor, and the interface through
//! which compiled blueprint code is instantiated and run. The WASM engine
//! itself stays outside; embedders implement the traits.

use vstd::prelude::*;

verus! {

/// What moves with a call: nodes handed over, references copied.
#[derive(Debug)]
pub struct CallFrameUpdate {
    pub nodes_to_move: Vec<Vec<u8>>,
    pub node_refs_to_copy: Vec<Vec<u8>>,
}

impl CallFrameUpdate {
    /// Nothing moves.
    pub fn empty() -> (r: Self)
        ensures
            r.nodes_to_move@.len() == 0,
            r.node_refs_to_copy@.len() == 0,
    {
        Self { nodes_to_move: Vec::new(), node_refs_to_copy: Vec::new() }
    }

    /// One reference is copied.
    pub fn copy_ref(node_id: Vec<u8>) -> (r: Self)
        ensures
            r.nodes_to_move@.len() == 0,
            r.node_refs_to_copy@.len() == 1,
            r.node_refs_to_copy@[0]@ == node_id@,
    {
        let mut refs: Vec<Vec<u8>> = Vec::new();
        refs.push(node_id);
        Self { nodes_to_move: Vec::new(), node_refs_to_copy: refs }
    }

    /// One node moves.
    pub fn move_node(node_id: Vec<u8>) -> (r: Self)
        ensures
            r.nodes_to_move@.len() == 1,
            r.nodes_to_move@[0]@ == node_id@,
            r.node_refs_to_copy@.len() == 0,
    {
        let mut moved: Vec<Vec<u8>> = Vec::new();
        moved.push(node_id);
        Self { nodes_to_move: moved, node_refs_to_copy: Vec::new() }
    }
}

/// Something the kernel can run once an invocation is resolved.
pub trait Executor {
    fn execute(self, args: &Vec<u8>) -> (Vec<u8>, CallFrameUpdate);
}

/// An invocation that can resolve itself into an executor.
pub trait ExecutableInvocation {
    fn payload_size(&self) -> usize;
}

/// A resolved invocation: the executor, the frame payload, and the argument
/// bytes.
pub struct KernelInvocation<E> {
    pub executor: E,
    pub update: CallFrameUpdate,
    pub args: Vec<u8>,
}

impl<E> KernelInvocation<E> {
    /// The frame payload the invocation carries.
    pub fn get_update(&self) -> (r: &CallFrameUpdate)
        ensures
            r == &self.update,
    {
        &self.update
    }
}

/// What a global address resolves to: the underlying node, by kind.
#[derive(Debug, Clone)]
pub enum GlobalAddressSubstate {
    Component(Vec<u8>),
    Resource(Vec<u8>),
    Package(Vec<u8>),
    EpochManager(Vec<u8>),
    Clock(Vec<u8>),
}

/// A node id, tagged by what kind of node it names.
#[derive(Debug, Clone)]
pub enum RENodeId {
    Component(Vec<u8>),
    ResourceManager(Vec<u8>),
    Package(Vec<u8>),
    EpochManager(Vec<u8>),
    Clock(Vec<u8>),
}

impl GlobalAddressSubstate {
    /// The node this global address stands for.
    pub fn node_deref(&self) -> (r: RENodeId)
        ensures
            match self {
                GlobalAddressSubstate::Component(id) => r matches RENodeId::Component(x) && x@
                    == id@,
                GlobalAddressSubstate::Resource(id) => r matches RENodeId::ResourceManager(x) && x@
                    == id@,
                GlobalAddressSubstate::Package(id) => r matches RENodeId::Package(x) && x@ == id@,
                GlobalAddressSubstate::EpochManager(id) => r matches RENodeId::EpochManager(x)
                    && x@ == id@,
                GlobalAddressSubstate::Clock(id) => r matches RENodeId::Clock(x) && x@ == id@,
            },
    {
        match self {
            GlobalAddressSubstate::Component(id) => RENodeId::Component(dup_bytes(id)),
            GlobalAddressSubstate::Resource(id) => RENodeId::ResourceManager(dup_bytes(id)),
            GlobalAddressSubstate::Package(id) => RENodeId::Package(dup_bytes(id)),
            GlobalAddressSubstate::EpochManager(id) => RENodeId::EpochManager(dup_bytes(id)),
            GlobalAddressSubstate::Clock(id) => RENodeId::Clock(dup_bytes(id)),
        }
    }
}

/// A copy with the same bytes.
pub fn dup_bytes(v: &Vec<u8>) -> (r: Vec<u8>)
    ensures
        r@ == v@,
{
    let r = v.clone();
    proof {
        assert(r@ =~= v@);
    }
    r
}

/// A failure inside an invoked export.
#[derive(Debug)]
pub enum InvokeError {
    Error,
    Downstream,
}

/// One instantiated piece of compiled blueprint code. Embedders implement
/// this over their WASM engine; nothing is promised of what it computes.
pub trait WasmInstance {
    fn invoke_export(&mut self, export_name: &str, args: &Vec<u8>) -> Result<Vec<u8>, InvokeError>;
}

/// A WASM engine: compiles code into instances. Embedders implement it.
pub trait WasmEngine {
    type Instance: WasmInstance;

    fn instantiate(&self, code: &[u8]) -> Self::Instance;
}

/// An executor around one instance and the argument bytes it will receive.
pub struct ScryptoExecutor<I> {
    pub instance: I,
    pub args: Vec<u8>,
}

impl<I: WasmInstance> ScryptoExecutor<I> {
    /// The argument bytes the export will receive.
    pub fn args(&self) -> (r: &Vec<u8>)
        ensures
            r == &self.args,
    {
        &self.args
    }

    /// Runs the export on the instance. The result comes from outside code;
    /// nothing is promised of it.
    pub fn execute(&mut self, export_name: &str) -> Result<Vec<u8>, InvokeError> {
        let args = dup_bytes(&self.args);
        self.instance.invoke_export(export_name, &args)
    }
}

/// Instantiates blueprint code and pairs it with its arguments.
pub struct ScryptoInterpreter<W: WasmEngine> {
    pub wasm_engine: W,
}

impl<W: WasmEngine> ScryptoInterpreter<W> {
    pub fn create_executor(&self, code: &[u8], args: Vec<u8>) -> (r: ScryptoExecutor<W::Instance>)
        ensures
            r.args@ == args@,
    {
        let instance = self.wasm_engine.instantiate(code);
        ScryptoExecutor { instance, args }
    }
}

} // verus!
