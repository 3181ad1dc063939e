//! Transactional overlay over the substate database: every touched key is
//! classified as new, read-only, read-and-write, or write-only, carries its
//! own lock state, and is finalized into a list of state updates. Force
//! writes survive `revert_non_force_write_changes`, which is how fee locking
//! outlives a failed transaction. The database itself stays outside: callers
//! hand in what it returned for a key.

use vstd::prelude::*;

verus! {

/// Requested access for a substate lock.
#[derive(Debug, Clone, Copy, PartialEq, Eq, Structural)]
pub struct LockFlags {
    pub mutable: bool,
    pub unmodified_base: bool,
    pub force_write: bool,
}

impl LockFlags {
    pub fn read_only() -> (r: Self)
        ensures
            r == (LockFlags { mutable: false, unmodified_base: false, force_write: false }),
    {
        LockFlags { mutable: false, unmodified_base: false, force_write: false }
    }

    pub fn mutable() -> (r: Self)
        ensures
            r == (LockFlags { mutable: true, unmodified_base: false, force_write: false }),
    {
        LockFlags { mutable: true, unmodified_base: false, force_write: false }
    }
}

#[derive(Debug)]
pub struct SubstateLockError;

/// Either a number of outstanding read locks, or one exclusive write lock.
#[derive(Debug, Copy, Clone, PartialEq, Eq, Structural)]
pub enum SubstateLockState {
    Read(usize),
    Write,
}

/// The transition that `try_lock` performs: `None` is a refusal.
pub open spec fn spec_try_lock(s: SubstateLockState, flags: LockFlags) -> Option<
    SubstateLockState,
> {
    match s {
        SubstateLockState::Read(n) => if flags.mutable {
            if n != 0 {
                None
            } else {
                Some(SubstateLockState::Write)
            }
        } else {
            Some(SubstateLockState::Read((n + 1) as usize))
        },
        SubstateLockState::Write => None,
    }
}

impl SubstateLockState {
    pub fn no_lock() -> (r: Self)
        ensures
            r == SubstateLockState::Read(0usize),
    {
        Self::Read(0)
    }

    pub fn is_locked(&self) -> (r: bool)
        ensures
            r == (*self != SubstateLockState::Read(0usize)),
    {
        !matches!(self, SubstateLockState::Read(0usize))
    }

    pub fn try_lock(&mut self, flags: LockFlags) -> (r: Result<(), SubstateLockError>)
        requires
            *old(self) matches SubstateLockState::Read(n) ==> n < usize::MAX,
        ensures
            match spec_try_lock(*old(self), flags) {
                Some(s) => r is Ok && *final(self) == s,
                None => r is Err && *final(self) == *old(self),
            },
    {
        match self {
            SubstateLockState::Read(n) => {
                if flags.mutable {
                    if *n != 0 {
                        return Err(SubstateLockError);
                    }
                    *self = SubstateLockState::Write;
                } else {
                    *n = *n + 1;
                }
            }
            SubstateLockState::Write => {
                return Err(SubstateLockError);
            }
        }
        Ok(())
    }

    fn unlock(&mut self)
        requires
            *old(self) != SubstateLockState::Read(0usize),
        ensures
            *final(self) == match *old(self) {
                SubstateLockState::Read(n) => SubstateLockState::Read((n - 1) as usize),
                SubstateLockState::Write => SubstateLockState::Read(0usize),
            },
    {
        match self {
            SubstateLockState::Read(n) => {
                *n = *n - 1;
            }
            SubstateLockState::Write => {
                *self = SubstateLockState::no_lock();
            }
        }
    }
}

/// A mutable lock excludes every other lock, and any outstanding lock
/// excludes a mutable one: for each substate, either one exclusive write
/// lock or only read locks are ever held.
pub proof fn lemma_lock_exclusivity(s: SubstateLockState, flags: LockFlags)
    ensures
        s == SubstateLockState::Write ==> spec_try_lock(s, flags) is None,
        flags.mutable && s != SubstateLockState::Read(0usize) ==> spec_try_lock(s, flags) is None,
        spec_try_lock(s, flags) == Some(SubstateLockState::Write) ==> s == SubstateLockState::Read(
            0usize,
        ),
{
}

/// The payload of a substate, as raw encoded bytes.
#[derive(Debug, Clone)]
pub struct IndexedScryptoValue {
    pub bytes: Vec<u8>,
}

impl IndexedScryptoValue {
    pub fn from_vec(bytes: Vec<u8>) -> (r: Self)
        ensures
            r.bytes@ == bytes@,
    {
        Self { bytes }
    }
}

#[derive(Debug)]
pub struct RuntimeSubstate {
    pub value: IndexedScryptoValue,
    pub lock_state: SubstateLockState,
}

impl RuntimeSubstate {
    pub fn new(value: IndexedScryptoValue) -> (r: Self)
        ensures
            r.value.bytes@ == value.bytes@,
            r.lock_state == SubstateLockState::Read(0usize),
    {
        Self { value, lock_state: SubstateLockState::no_lock() }
    }
}

#[derive(Debug)]
pub enum ReadOnly {
    NonExistent,
    Existent(RuntimeSubstate),
}

/// What a read observed in the database before a write.
#[derive(Debug)]
pub enum Read {
    NonExistent,
    Existent,
}

#[derive(Debug)]
pub enum Write {
    Update(RuntimeSubstate),
    Delete,
}

impl Write {
    pub fn into_value(self) -> (r: Option<IndexedScryptoValue>)
        ensures
            match self {
                Write::Update(substate) => r matches Some(v) && v.bytes@ == substate.value.bytes@,
                Write::Delete => r is None,
            },
    {
        match self {
            Write::Update(substate) => Some(substate.value),
            Write::Delete => None,
        }
    }
}

/// The classification of one touched substate.
#[derive(Debug)]
pub enum TrackedSubstateKey {
    New(RuntimeSubstate),
    ReadOnly(ReadOnly),
    ReadAndWrite(Read, Write),
    WriteOnly(Write),
}

/// The shape of a tracked substate, without its payload.
pub enum TrackedKind {
    New,
    ReadOnlyAbsent,
    ReadOnlyPresent,
    ReadWriteUpdate { read_existent: bool },
    ReadWriteDelete { read_existent: bool },
    WriteOnlyUpdate,
    WriteOnlyDelete,
}

impl TrackedSubstateKey {
    pub open spec fn kind(&self) -> TrackedKind {
        match self {
            TrackedSubstateKey::New(_) => TrackedKind::New,
            TrackedSubstateKey::ReadOnly(ReadOnly::NonExistent) => TrackedKind::ReadOnlyAbsent,
            TrackedSubstateKey::ReadOnly(ReadOnly::Existent(_)) => TrackedKind::ReadOnlyPresent,
            TrackedSubstateKey::ReadAndWrite(read, Write::Update(_)) => {
                TrackedKind::ReadWriteUpdate {
                    read_existent: read matches Read::Existent,
                }
            }
            TrackedSubstateKey::ReadAndWrite(read, Write::Delete) => {
                TrackedKind::ReadWriteDelete { read_existent: read matches Read::Existent }
            }
            TrackedSubstateKey::WriteOnly(Write::Update(_)) => TrackedKind::WriteOnlyUpdate,
            TrackedSubstateKey::WriteOnly(Write::Delete) => TrackedKind::WriteOnlyDelete,
        }
    }

    /// The current payload bytes, where a substate is present.
    pub open spec fn spec_value(&self) -> Option<Seq<u8>> {
        match self {
            TrackedSubstateKey::New(s) => Some(s.value.bytes@),
            TrackedSubstateKey::WriteOnly(Write::Update(s)) => Some(s.value.bytes@),
            TrackedSubstateKey::ReadOnly(ReadOnly::Existent(s)) => Some(s.value.bytes@),
            TrackedSubstateKey::ReadAndWrite(_, Write::Update(s)) => Some(s.value.bytes@),
            TrackedSubstateKey::WriteOnly(Write::Delete) => None,
            TrackedSubstateKey::ReadAndWrite(_, Write::Delete) => None,
            TrackedSubstateKey::ReadOnly(ReadOnly::NonExistent) => None,
        }
    }

    /// The lock state, where a substate is present.
    pub open spec fn spec_lock(&self) -> SubstateLockState {
        match self {
            TrackedSubstateKey::New(s) => s.lock_state,
            TrackedSubstateKey::WriteOnly(Write::Update(s)) => s.lock_state,
            TrackedSubstateKey::ReadOnly(ReadOnly::Existent(s)) => s.lock_state,
            TrackedSubstateKey::ReadAndWrite(_, Write::Update(s)) => s.lock_state,
            _ => SubstateLockState::Read(0usize),
        }
    }

    /// The substate under this classification, if one is present.
    pub fn get_substate(&self) -> (r: Option<&RuntimeSubstate>)
        ensures
            match r {
                Some(s) => self.spec_value() == Some(s.value.bytes@) && self.spec_lock()
                    == s.lock_state,
                None => self.spec_value() is None,
            },
    {
        match self {
            TrackedSubstateKey::New(substate) => Some(substate),
            TrackedSubstateKey::WriteOnly(Write::Update(substate)) => Some(substate),
            TrackedSubstateKey::ReadOnly(ReadOnly::Existent(substate)) => Some(substate),
            TrackedSubstateKey::ReadAndWrite(_, Write::Update(substate)) => Some(substate),
            TrackedSubstateKey::WriteOnly(Write::Delete) => None,
            TrackedSubstateKey::ReadAndWrite(_, Write::Delete) => None,
            TrackedSubstateKey::ReadOnly(ReadOnly::NonExistent) => None,
        }
    }

    pub fn into_value(self) -> (r: Option<IndexedScryptoValue>)
        ensures
            match r {
                Some(v) => self.spec_value() == Some(v.bytes@),
                None => self.spec_value() is None,
            },
    {
        match self {
            TrackedSubstateKey::New(substate) => Some(substate.value),
            TrackedSubstateKey::WriteOnly(Write::Update(substate)) => Some(substate.value),
            TrackedSubstateKey::ReadOnly(ReadOnly::Existent(substate)) => Some(substate.value),
            TrackedSubstateKey::ReadAndWrite(_, Write::Update(substate)) => Some(substate.value),
            TrackedSubstateKey::WriteOnly(Write::Delete) => None,
            TrackedSubstateKey::ReadAndWrite(_, Write::Delete) => None,
            TrackedSubstateKey::ReadOnly(ReadOnly::NonExistent) => None,
        }
    }
}

} // verus!

verus! {

use crate::util::bytes_eq;

/// An addressable entity: one byte of entity type, then a hash-derived
/// suffix.
#[derive(Debug, Clone)]
pub struct NodeId(pub Vec<u8>);

impl View for NodeId {
    type V = Seq<u8>;

    open spec fn view(&self) -> Seq<u8> {
        self.0@
    }
}

pub fn node_id_eq(a: &NodeId, b: &NodeId) -> (r: bool)
    ensures
        r == (a@ == b@),
{
    bytes_eq(a.0.as_slice(), b.0.as_slice())
}

/// One namespace of a node's substate space.
#[derive(Debug, Clone, Copy, PartialEq, Eq, Structural)]
pub struct ModuleId(pub u32);

/// A key within one partition: a field number, a map key, or a sorted key.
#[derive(Debug, Clone)]
pub enum SubstateKey {
    Field(u8),
    MapKey(Vec<u8>),
    Sorted(u16, Vec<u8>),
}

pub enum SubstateKeyV {
    Field(u8),
    MapKey(Seq<u8>),
    Sorted(u16, Seq<u8>),
}

impl View for SubstateKey {
    type V = SubstateKeyV;

    open spec fn view(&self) -> SubstateKeyV {
        match self {
            SubstateKey::Field(b) => SubstateKeyV::Field(*b),
            SubstateKey::MapKey(k) => SubstateKeyV::MapKey(k@),
            SubstateKey::Sorted(s, k) => SubstateKeyV::Sorted(*s, k@),
        }
    }
}

pub fn substate_key_eq(a: &SubstateKey, b: &SubstateKey) -> (r: bool)
    ensures
        r == (a@ == b@),
{
    match (a, b) {
        (SubstateKey::Field(x), SubstateKey::Field(y)) => x == y,
        (SubstateKey::MapKey(x), SubstateKey::MapKey(y)) => bytes_eq(x.as_slice(), y.as_slice()),
        (SubstateKey::Sorted(s1, x), SubstateKey::Sorted(s2, y)) => s1 == s2 && bytes_eq(
            x.as_slice(),
            y.as_slice(),
        ),
        _ => false,
    }
}

#[derive(Debug)]
pub enum AcquireLockError {
    NotFound(NodeId, ModuleId, SubstateKey),
    SubstateLocked(NodeId, ModuleId, SubstateKey),
    LockUnmodifiedBaseOnNewSubstate(NodeId, ModuleId, SubstateKey),
    LockUnmodifiedBaseOnOnUpdatedSubstate(NodeId, ModuleId, SubstateKey),
}

/// One touched substate with its key.
pub struct TrackedEntry {
    pub node_id: NodeId,
    pub module_id: ModuleId,
    pub key: SubstateKey,
    pub state: TrackedSubstateKey,
}

/// One outstanding lock.
pub struct LockEntry {
    pub handle: u32,
    pub node_id: NodeId,
    pub module_id: ModuleId,
    pub key: SubstateKey,
    pub flags: LockFlags,
}

/// What can be observed of one tracked substate.
pub struct TrackedSummary {
    pub kind: TrackedKind,
    pub value: Option<Seq<u8>>,
    pub lock: SubstateLockState,
}

pub open spec fn summary_of_tracked(t: &TrackedSubstateKey) -> TrackedSummary {
    TrackedSummary { kind: t.kind(), value: t.spec_value(), lock: t.spec_lock() }
}

pub open spec fn entry_matches(e: TrackedEntry, n: Seq<u8>, m: ModuleId, k: SubstateKeyV) -> bool {
    e.node_id@ == n && e.module_id == m && e.key@ == k
}

/// Index of the first entry with the given key.
pub open spec fn find_index(s: Seq<TrackedEntry>, n: Seq<u8>, m: ModuleId, k: SubstateKeyV) -> Option<
    int,
>
    decreases s.len(),
{
    if s.len() == 0 {
        None
    } else if entry_matches(s[0], n, m, k) {
        Some(0)
    } else {
        match find_index(s.drop_first(), n, m, k) {
            Some(i) => Some(i + 1),
            None => None,
        }
    }
}

pub proof fn lemma_find_index_first(s: Seq<TrackedEntry>, n: Seq<u8>, m: ModuleId, k: SubstateKeyV, i: int)
    requires
        0 <= i < s.len(),
        entry_matches(s[i], n, m, k),
        forall|j: int| 0 <= j < i ==> !entry_matches(s[j], n, m, k),
    ensures
        find_index(s, n, m, k) == Some(i),
    decreases i,
{
    if i > 0 {
        lemma_find_index_first(s.drop_first(), n, m, k, i - 1);
    }
}

pub proof fn lemma_find_index_none(s: Seq<TrackedEntry>, n: Seq<u8>, m: ModuleId, k: SubstateKeyV)
    requires
        forall|j: int| 0 <= j < s.len() ==> !entry_matches(s[j], n, m, k),
    ensures
        find_index(s, n, m, k) is None,
    decreases s.len(),
{
    if s.len() > 0 {
        lemma_find_index_none(s.drop_first(), n, m, k);
    }
}

pub proof fn lemma_find_index_valid(s: Seq<TrackedEntry>, n: Seq<u8>, m: ModuleId, k: SubstateKeyV)
    ensures
        match find_index(s, n, m, k) {
            Some(i) => 0 <= i < s.len() && entry_matches(s[i], n, m, k),
            None => forall|j: int| 0 <= j < s.len() ==> !entry_matches(s[j], n, m, k),
        },
    decreases s.len(),
{
    if s.len() > 0 && !entry_matches(s[0], n, m, k) {
        lemma_find_index_valid(s.drop_first(), n, m, k);
        match find_index(s.drop_first(), n, m, k) {
            Some(i) => {
                assert(s[i + 1] == s.drop_first()[i]);
            }
            None => {
                assert forall|j: int| 0 <= j < s.len() implies !entry_matches(s[j], n, m, k) by {
                    if j > 0 {
                        assert(s[j] == s.drop_first()[j - 1]);
                    }
                }
            }
        }
    }
}

/// A delta to one substate, as finalization reports it.
#[derive(Debug)]
pub enum StateUpdate {
    Create(Vec<u8>),
    Update(Vec<u8>),
    Delete,
}

/// The state delta of a whole transaction, one change per touched key.
pub struct StateUpdates {
    pub substate_changes: Vec<(NodeId, ModuleId, SubstateKey, StateUpdate)>,
}

/// Whether a tracked substate was modified this transaction. Read-only
/// observations are not deltas and leave no trace in the finalized updates.
pub open spec fn is_modified(t: &TrackedSubstateKey) -> bool {
    !(t.kind() is ReadOnlyPresent || t.kind() is ReadOnlyAbsent)
}

/// Which delta kind one modified substate finalizes into, and with which
/// payload.
pub open spec fn update_matches_tracked(u: &StateUpdate, t: &TrackedSubstateKey) -> bool {
    match t.kind() {
        TrackedKind::New | TrackedKind::WriteOnlyUpdate => u matches StateUpdate::Create(v)
            && Some(v@) == t.spec_value(),
        TrackedKind::ReadWriteUpdate { .. } => u matches StateUpdate::Update(v) && Some(v@)
            == t.spec_value(),
        TrackedKind::ReadWriteDelete { .. } | TrackedKind::WriteOnlyDelete => u is Delete,
        TrackedKind::ReadOnlyPresent | TrackedKind::ReadOnlyAbsent => false,
    }
}

/// The positions of the modified entries among the first `n` tracked ones,
/// in order.
pub open spec fn spec_modified_upto(s: Seq<TrackedEntry>, n: int) -> Seq<int>
    decreases n,
{
    if n <= 0 {
        Seq::empty()
    } else {
        let rest = spec_modified_upto(s, n - 1);
        if is_modified(&s[n - 1].state) {
            rest.push(n - 1)
        } else {
            rest
        }
    }
}

/// Every listed position is a modified entry below `n`.
pub proof fn lemma_modified_upto_valid(s: Seq<TrackedEntry>, n: int)
    ensures
        forall|k: int|
            0 <= k < spec_modified_upto(s, n).len() ==> 0 <= #[trigger] spec_modified_upto(s, n)[k]
                < n && is_modified(&s[spec_modified_upto(s, n)[k]].state),
    decreases n,
{
    if n > 0 {
        lemma_modified_upto_valid(s, n - 1);
    }
}

/// Transaction-wide overlay state and side effects.
pub struct Track {
    updates: Vec<TrackedEntry>,
    force_updates: Vec<TrackedEntry>,
    new_nodes: Vec<NodeId>,
    locks: Vec<LockEntry>,
    next_lock_id: u32,
}

impl Track {
    pub closed spec fn spec_updates(&self) -> Seq<TrackedEntry> {
        self.updates@
    }

    pub closed spec fn spec_force_updates(&self) -> Seq<TrackedEntry> {
        self.force_updates@
    }

    pub closed spec fn spec_locks(&self) -> Seq<LockEntry> {
        self.locks@
    }

    pub closed spec fn spec_next_lock_id(&self) -> u32 {
        self.next_lock_id
    }

    /// The tracked classification of a key, if that key was touched.
    pub open spec fn summary_of(&self, n: Seq<u8>, m: ModuleId, k: SubstateKeyV) -> Option<
        TrackedSummary,
    > {
        match find_index(self.spec_updates(), n, m, k) {
            Some(i) => Some(summary_of_tracked(&self.spec_updates()[i].state)),
            None => None,
        }
    }

    /// Keys are tracked at most once, and read counts never exceed the number
    /// of handles ever given out.
    pub open spec fn wf(&self) -> bool {
        &&& unique_keys(self.spec_updates())
        &&& lock_counts_bounded(self.spec_updates(), self.spec_next_lock_id())
        &&& unique_keys(self.spec_force_updates())
        &&& lock_counts_bounded(self.spec_force_updates(), self.spec_next_lock_id())
        &&& handles_below(self.spec_locks(), self.spec_next_lock_id())
    }

    pub fn new() -> (r: Self)
        ensures
            r.wf(),
            r.spec_updates().len() == 0,
            r.spec_force_updates().len() == 0,
            r.spec_locks().len() == 0,
            r.spec_next_lock_id() == 0,
    {
        Self {
            updates: Vec::new(),
            force_updates: Vec::new(),
            new_nodes: Vec::new(),
            locks: Vec::new(),
            next_lock_id: 0,
        }
    }

    /// Index of the tracked entry for a key, if the key was touched.
    fn find_update(&self, node_id: &NodeId, module_id: ModuleId, key: &SubstateKey) -> (r: Option<
        usize,
    >)
        ensures
            match r {
                Some(i) => i < self.spec_updates().len() && find_index(
                    self.spec_updates(), node_id@, module_id, key@) == Some(i as int),
                None => find_index(self.spec_updates(), node_id@, module_id, key@) is None,
            },
    {
        let mut i: usize = 0;
        while i < self.updates.len()
            invariant
                i <= self.updates@.len(),
                forall|j: int| 0 <= j < i ==> !entry_matches(
                    #[trigger] self.updates@[j], node_id@, module_id, key@),
            decreases self.updates@.len() - i,
        {
            let e = &self.updates[i];
            if node_id_eq(&e.node_id, node_id) && e.module_id.0 == module_id.0
                && substate_key_eq(&e.key, key) {
                proof {
                    lemma_find_index_first(self.updates@, node_id@, module_id, key@, i as int);
                }
                return Some(i);
            }
            i = i + 1;
        }
        proof {
            lemma_find_index_none(self.updates@, node_id@, module_id, key@);
        }
        None
    }
}

} // verus!

verus! {

/// No two tracked entries share a key.
pub open spec fn unique_keys(s: Seq<TrackedEntry>) -> bool {
    forall|i: int, j: int|
        0 <= i < j < s.len() ==> !entry_matches(
            #[trigger] s[j],
            (#[trigger] s[i]).node_id@,
            s[i].module_id,
            s[i].key@,
        )
}

/// Every read count stays below the number of handles ever given out.
pub open spec fn lock_counts_bounded(s: Seq<TrackedEntry>, bound: u32) -> bool {
    forall|i: int|
        0 <= i < s.len() ==> ((#[trigger] s[i].state.spec_lock()) matches
            SubstateLockState::Read(c) ==> c <= bound)
}

/// Every outstanding handle lies below the next one to give out, so a fresh
/// handle is distinct from every outstanding one.
pub open spec fn handles_below(locks: Seq<LockEntry>, next: u32) -> bool {
    forall|i: int| 0 <= i < locks.len() ==> (#[trigger] locks[i]).handle < next
}

pub proof fn lemma_unique_after_update(s1: Seq<TrackedEntry>, s2: Seq<TrackedEntry>, i: int)
    requires
        unique_keys(s1),
        0 <= i < s1.len(),
        s2 == s1.update(i, s2[i]),
        s2[i].node_id@ == s1[i].node_id@,
        s2[i].module_id == s1[i].module_id,
        s2[i].key@ == s1[i].key@,
    ensures
        unique_keys(s2),
{
    assert forall|a: int, b: int| 0 <= a < b < s2.len() implies !entry_matches(
        s2[b],
        s2[a].node_id@,
        s2[a].module_id,
        s2[a].key@,
    ) by {
        assert(!entry_matches(s1[b], s1[a].node_id@, s1[a].module_id, s1[a].key@));
    }
}

pub proof fn lemma_unique_after_push(s: Seq<TrackedEntry>, e: TrackedEntry)
    requires
        unique_keys(s),
        find_index(s, e.node_id@, e.module_id, e.key@) is None,
    ensures
        unique_keys(s.push(e)),
{
    lemma_find_index_valid(s, e.node_id@, e.module_id, e.key@);
    let s2 = s.push(e);
    assert forall|a: int, b: int| 0 <= a < b < s2.len() implies !entry_matches(
        s2[b],
        s2[a].node_id@,
        s2[a].module_id,
        s2[a].key@,
    ) by {
        if b < s.len() {
            assert(!entry_matches(s[b], s[a].node_id@, s[a].module_id, s[a].key@));
        } else {
            assert(s2[b] == e);
            assert(s2[a] == s[a]);
            assert(!entry_matches(s[a], e.node_id@, e.module_id, e.key@));
        }
    }
}

impl NodeId {
    /// A copy with the same bytes.
    pub fn duplicate(&self) -> (r: Self)
        ensures
            r@ == self@,
    {
        let bytes = self.0.clone();
        proof {
            assert(bytes@ =~= self.0@);
        }
        NodeId(bytes)
    }
}

impl SubstateKey {
    /// A copy with the same view.
    pub fn duplicate(&self) -> (r: Self)
        ensures
            r@ == self@,
    {
        match self {
            SubstateKey::Field(b) => SubstateKey::Field(*b),
            SubstateKey::MapKey(v) => {
                let w = v.clone();
                proof {
                    assert(w@ =~= v@);
                }
                SubstateKey::MapKey(w)
            }
            SubstateKey::Sorted(s, v) => {
                let w = v.clone();
                proof {
                    assert(w@ =~= v@);
                }
                SubstateKey::Sorted(*s, w)
            }
        }
    }
}

impl Track {
    /// Loads the key into the overlay if it is untracked: first from what the
    /// database returned (`base`), else from what the virtualization hook
    /// synthesized (`virtualized`), else as observed non-existent. Returns
    /// where the key is tracked.
    fn get_tracked_substate_virtualize(
        &mut self,
        node_id: &NodeId,
        module_id: ModuleId,
        key: &SubstateKey,
        base: Option<IndexedScryptoValue>,
        virtualized: Option<IndexedScryptoValue>,
    ) -> (idx: usize)
        requires
            old(self).wf(),
        ensures
            final(self).wf(),
            final(self).spec_locks() == old(self).spec_locks(),
            final(self).spec_next_lock_id() == old(self).spec_next_lock_id(),
            final(self).spec_force_updates() == old(self).spec_force_updates(),
            idx < final(self).spec_updates().len(),
            entry_matches(final(self).spec_updates()[idx as int], node_id@, module_id, key@),
            find_index(final(self).spec_updates(), node_id@, module_id, key@) == Some(idx as int),
            match find_index(old(self).spec_updates(), node_id@, module_id, key@) {
                Some(i) => idx == i && final(self).spec_updates() == old(self).spec_updates(),
                None => {
                    &&& idx == old(self).spec_updates().len()
                    &&& final(self).spec_updates() == old(self).spec_updates().push(
                        final(self).spec_updates()[idx as int])
                    &&& {
                        let sm = summary_of_tracked(&final(self).spec_updates()[idx as int].state);
                        match base {
                            Some(v) => sm.kind is ReadOnlyPresent && sm.value == Some(v.bytes@)
                                && sm.lock == SubstateLockState::Read(0usize),
                            None => match virtualized {
                                Some(v) => sm.kind matches TrackedKind::ReadWriteUpdate {
                                    read_existent,
                                } && !read_existent && sm.value == Some(v.bytes@) && sm.lock
                                    == SubstateLockState::Read(0usize),
                                None => sm.kind is ReadOnlyAbsent && sm.value is None && sm.lock
                                    == SubstateLockState::Read(0usize),
                            },
                        }
                    }
                },
            },
    {
        match self.find_update(node_id, module_id, key) {
            Some(i) => {
                proof {
                    lemma_find_index_valid(self.updates@, node_id@, module_id, key@);
                }
                i
            }
            None => {
                let state = match base {
                    Some(v) => TrackedSubstateKey::ReadOnly(
                        ReadOnly::Existent(RuntimeSubstate::new(v)),
                    ),
                    None => match virtualized {
                        Some(v) => TrackedSubstateKey::ReadAndWrite(
                            Read::NonExistent,
                            Write::Update(RuntimeSubstate::new(v)),
                        ),
                        None => TrackedSubstateKey::ReadOnly(ReadOnly::NonExistent),
                    },
                };
                let idx = self.updates.len();
                let ghost before = self.updates@;
                let entry = TrackedEntry {
                    node_id: node_id.duplicate(),
                    module_id,
                    key: key.duplicate(),
                    state,
                };
                proof {
                    lemma_unique_after_push(before, entry);
                }
                self.updates.push(entry);
                proof {
                    lemma_find_index_first(self.updates@, node_id@, module_id, key@, idx as int);
                }
                idx
            }
        }
    }
}

} // verus!

verus! {

pub open spec fn opt_bytes(o: Option<IndexedScryptoValue>) -> Option<Seq<u8>> {
    match o {
        Some(v) => Some(v.bytes@),
        None => None,
    }
}

/// The classification a key has right after the virtualization step.
pub open spec fn spec_post_virtualize(
    prior: Option<TrackedSummary>,
    base: Option<Seq<u8>>,
    virt: Option<Seq<u8>>,
) -> TrackedSummary {
    match prior {
        Some(sm) => sm,
        None => match base {
            Some(v) => TrackedSummary {
                kind: TrackedKind::ReadOnlyPresent,
                value: Some(v),
                lock: SubstateLockState::Read(0usize),
            },
            None => match virt {
                Some(v) => TrackedSummary {
                    kind: TrackedKind::ReadWriteUpdate { read_existent: false },
                    value: Some(v),
                    lock: SubstateLockState::Read(0usize),
                },
                None => TrackedSummary {
                    kind: TrackedKind::ReadOnlyAbsent,
                    value: None,
                    lock: SubstateLockState::Read(0usize),
                },
            },
        },
    }
}

pub open spec fn lock_entry_matches(
    e: LockEntry,
    handle: u32,
    n: Seq<u8>,
    m: ModuleId,
    k: SubstateKeyV,
    flags: LockFlags,
) -> bool {
    e.handle == handle && e.node_id@ == n && e.module_id == m && e.key@ == k && e.flags == flags
}

/// Two sequences with pointwise equal keys resolve every lookup alike.
pub proof fn lemma_find_keys_eq(
    s1: Seq<TrackedEntry>,
    s2: Seq<TrackedEntry>,
    n: Seq<u8>,
    m: ModuleId,
    k: SubstateKeyV,
)
    requires
        s1.len() == s2.len(),
        forall|j: int|
            0 <= j < s1.len() ==> (#[trigger] s2[j]).node_id@ == s1[j].node_id@ && s2[j].module_id
                == s1[j].module_id && s2[j].key@ == s1[j].key@,
    ensures
        find_index(s2, n, m, k) == find_index(s1, n, m, k),
    decreases s1.len(),
{
    if s1.len() > 0 {
        assert(s2[0].node_id@ == s1[0].node_id@);
        assert forall|j: int| 0 <= j < s1.drop_first().len() implies (#[trigger] s2.drop_first()[j]).node_id@
            == s1.drop_first()[j].node_id@ && s2.drop_first()[j].module_id
            == s1.drop_first()[j].module_id && s2.drop_first()[j].key@
            == s1.drop_first()[j].key@ by {
            assert(s1.drop_first()[j] == s1[j + 1]);
            assert(s2.drop_first()[j] == s2[j + 1]);
        }
        lemma_find_keys_eq(s1.drop_first(), s2.drop_first(), n, m, k);
    }
}

impl Track {
    fn new_lock_handle(
        &mut self,
        node_id: &NodeId,
        module_id: ModuleId,
        key: &SubstateKey,
        flags: LockFlags,
    ) -> (handle: u32)
        requires
            old(self).spec_next_lock_id() < u32::MAX,
        ensures
            handle == old(self).spec_next_lock_id(),
            final(self).spec_next_lock_id() == handle + 1,
            final(self).spec_locks().len() == old(self).spec_locks().len() + 1,
            forall|j: int|
                0 <= j < old(self).spec_locks().len() ==> final(self).spec_locks()[j] == old(
                    self,
                ).spec_locks()[j],
            lock_entry_matches(final(self).spec_locks().last(), handle, node_id@, module_id, key@,
                flags),
            final(self).spec_updates() == old(self).spec_updates(),
            final(self).spec_force_updates() == old(self).spec_force_updates(),
    {
        let new_lock = self.next_lock_id;
        self.locks.push(LockEntry {
            handle: new_lock,
            node_id: node_id.duplicate(),
            module_id,
            key: key.duplicate(),
            flags,
        });
        self.next_lock_id = self.next_lock_id + 1;
        new_lock
    }

    /// Acquires a lock on a key, loading it into the overlay first (from
    /// `base`, what the database returned for it, or `virtualized`, what the
    /// virtualization hook synthesized). `UNMODIFIED_BASE` refuses any key
    /// not standing as an unmodified observation of the database, so a key
    /// created or written this transaction is refused; a missing substate
    /// refuses with `NotFound`; an incompatible lock refuses with
    /// `SubstateLocked`.
    pub fn acquire_lock_virtualize(
        &mut self,
        node_id: &NodeId,
        module_id: ModuleId,
        key: &SubstateKey,
        flags: LockFlags,
        base: Option<IndexedScryptoValue>,
        virtualized: Option<IndexedScryptoValue>,
    ) -> (r: Result<u32, AcquireLockError>)
        requires
            old(self).wf(),
            old(self).spec_next_lock_id() < u32::MAX,
        ensures
            final(self).wf(),
            final(self).spec_force_updates() == old(self).spec_force_updates(),
            ({
                let post = spec_post_virtualize(
                    old(self).summary_of(node_id@, module_id, key@),
                    opt_bytes(base),
                    opt_bytes(virtualized),
                );
                let new_base = post.kind is New || post.kind matches TrackedKind::WriteOnlyUpdate
                    || post.kind matches TrackedKind::WriteOnlyDelete;
                let updated_base = post.kind matches TrackedKind::ReadWriteUpdate { .. }
                    || post.kind matches TrackedKind::ReadWriteDelete { .. };
                match r {
                    Ok(handle) => {
                        &&& !(flags.unmodified_base && (new_base || updated_base))
                        &&& post.value is Some
                        &&& spec_try_lock(post.lock, flags) is Some
                        &&& final(self).summary_of(node_id@, module_id, key@) == Some(
                            TrackedSummary {
                                kind: post.kind,
                                value: post.value,
                                lock: spec_try_lock(post.lock, flags).unwrap(),
                            },
                        )
                        &&& handle == old(self).spec_next_lock_id()
                        &&& final(self).spec_next_lock_id() == handle + 1
                        &&& final(self).spec_locks().len() == old(self).spec_locks().len() + 1
                        &&& (forall|j: int|
                            0 <= j < old(self).spec_locks().len() ==> final(self).spec_locks()[j]
                                == old(self).spec_locks()[j])
                        &&& lock_entry_matches(final(self).spec_locks().last(), handle, node_id@,
                            module_id, key@, flags)
                    },
                    Err(e) => {
                        &&& final(self).spec_locks() == old(self).spec_locks()
                        &&& final(self).spec_next_lock_id() == old(self).spec_next_lock_id()
                        &&& final(self).summary_of(node_id@, module_id, key@) == Some(post)
                        &&& match e {
                            AcquireLockError::LockUnmodifiedBaseOnNewSubstate(..) =>
                                flags.unmodified_base && new_base,
                            AcquireLockError::LockUnmodifiedBaseOnOnUpdatedSubstate(..) =>
                                flags.unmodified_base && updated_base,
                            AcquireLockError::NotFound(..) => !(flags.unmodified_base && (new_base
                                || updated_base)) && post.value is None,
                            AcquireLockError::SubstateLocked(..) => !(flags.unmodified_base && (
                            new_base || updated_base)) && post.value is Some && spec_try_lock(
                                post.lock,
                                flags,
                            ) is None,
                        }
                    },
                }
            }),
    {
        let idx = self.get_tracked_substate_virtualize(node_id, module_id, key, base, virtualized);

        if flags.unmodified_base {
            if matches!(self.updates[idx].state, TrackedSubstateKey::New(..)
                | TrackedSubstateKey::WriteOnly(..)) {
                return Err(AcquireLockError::LockUnmodifiedBaseOnNewSubstate(
                    node_id.duplicate(),
                    module_id,
                    key.duplicate(),
                ));
            }
            if matches!(self.updates[idx].state, TrackedSubstateKey::ReadAndWrite(..)) {
                return Err(AcquireLockError::LockUnmodifiedBaseOnOnUpdatedSubstate(
                    node_id.duplicate(),
                    module_id,
                    key.duplicate(),
                ));
            }
        }

        let lock0 = match self.updates[idx].state.get_substate() {
            Some(s) => s.lock_state,
            None => {
                return Err(AcquireLockError::NotFound(
                    node_id.duplicate(),
                    module_id,
                    key.duplicate(),
                ));
            }
        };

        let mut lock = lock0;
        match lock.try_lock(flags) {
            Ok(_) => {}
            Err(_) => {
                return Err(AcquireLockError::SubstateLocked(
                    node_id.duplicate(),
                    module_id,
                    key.duplicate(),
                ));
            }
        }

        let ghost mid = self.updates@;
        let mut entry = self.updates.remove(idx);
        entry.state = match entry.state {
            TrackedSubstateKey::New(mut s) => {
                s.lock_state = lock;
                TrackedSubstateKey::New(s)
            }
            TrackedSubstateKey::WriteOnly(Write::Update(mut s)) => {
                s.lock_state = lock;
                TrackedSubstateKey::WriteOnly(Write::Update(s))
            }
            TrackedSubstateKey::ReadOnly(ReadOnly::Existent(mut s)) => {
                s.lock_state = lock;
                TrackedSubstateKey::ReadOnly(ReadOnly::Existent(s))
            }
            TrackedSubstateKey::ReadAndWrite(read, Write::Update(mut s)) => {
                s.lock_state = lock;
                TrackedSubstateKey::ReadAndWrite(read, Write::Update(s))
            }
            other => other,
        };
        self.updates.insert(idx, entry);
        proof {
            assert(self.updates@ =~= mid.update(idx as int, self.updates@[idx as int]));
            lemma_unique_after_update(mid, self.updates@, idx as int);
            lemma_find_keys_eq(mid, self.updates@, node_id@, module_id, key@);
        }
        Ok(self.new_lock_handle(node_id, module_id, key, flags))
    }

    /// `acquire_lock_virtualize` with nothing to synthesize.
    pub fn acquire_lock(
        &mut self,
        node_id: &NodeId,
        module_id: ModuleId,
        key: &SubstateKey,
        flags: LockFlags,
        base: Option<IndexedScryptoValue>,
    ) -> (r: Result<u32, AcquireLockError>)
        requires
            old(self).wf(),
            old(self).spec_next_lock_id() < u32::MAX,
        ensures
            final(self).wf(),
            final(self).spec_force_updates() == old(self).spec_force_updates(),
            ({
                let post = spec_post_virtualize(
                    old(self).summary_of(node_id@, module_id, key@),
                    opt_bytes(base),
                    None,
                );
                let new_base = post.kind is New || post.kind matches TrackedKind::WriteOnlyUpdate
                    || post.kind matches TrackedKind::WriteOnlyDelete;
                let updated_base = post.kind matches TrackedKind::ReadWriteUpdate { .. }
                    || post.kind matches TrackedKind::ReadWriteDelete { .. };
                match r {
                    Ok(handle) => {
                        &&& !(flags.unmodified_base && (new_base || updated_base))
                        &&& post.value is Some
                        &&& spec_try_lock(post.lock, flags) is Some
                        &&& final(self).summary_of(node_id@, module_id, key@) == Some(
                            TrackedSummary {
                                kind: post.kind,
                                value: post.value,
                                lock: spec_try_lock(post.lock, flags).unwrap(),
                            },
                        )
                        &&& handle == old(self).spec_next_lock_id()
                        &&& final(self).spec_next_lock_id() == handle + 1
                        &&& final(self).spec_locks().len() == old(self).spec_locks().len() + 1
                        &&& (forall|j: int|
                            0 <= j < old(self).spec_locks().len() ==> final(self).spec_locks()[j]
                                == old(self).spec_locks()[j])
                        &&& lock_entry_matches(final(self).spec_locks().last(), handle, node_id@,
                            module_id, key@, flags)
                    },
                    Err(e) => {
                        &&& final(self).spec_locks() == old(self).spec_locks()
                        &&& final(self).spec_next_lock_id() == old(self).spec_next_lock_id()
                        &&& final(self).summary_of(node_id@, module_id, key@) == Some(post)
                        &&& match e {
                            AcquireLockError::LockUnmodifiedBaseOnNewSubstate(..) =>
                                flags.unmodified_base && new_base,
                            AcquireLockError::LockUnmodifiedBaseOnOnUpdatedSubstate(..) =>
                                flags.unmodified_base && updated_base,
                            AcquireLockError::NotFound(..) => !(flags.unmodified_base && (new_base
                                || updated_base)) && post.value is None,
                            AcquireLockError::SubstateLocked(..) => !(flags.unmodified_base && (
                            new_base || updated_base)) && post.value is Some && spec_try_lock(
                                post.lock,
                                flags,
                            ) is None,
                        }
                    },
                }
            }),
    {
        self.acquire_lock_virtualize(node_id, module_id, key, flags, base, None)
    }
}

} // verus!

verus! {

/// Index of the lock entry with the given handle.
pub open spec fn find_lock(s: Seq<LockEntry>, handle: u32) -> Option<int>
    decreases s.len(),
{
    if s.len() == 0 {
        None
    } else if s[0].handle == handle {
        Some(0)
    } else {
        match find_lock(s.drop_first(), handle) {
            Some(i) => Some(i + 1),
            None => None,
        }
    }
}

pub proof fn lemma_find_lock_first(s: Seq<LockEntry>, handle: u32, i: int)
    requires
        0 <= i < s.len(),
        s[i].handle == handle,
        forall|j: int| 0 <= j < i ==> s[j].handle != handle,
    ensures
        find_lock(s, handle) == Some(i),
    decreases i,
{
    if i > 0 {
        lemma_find_lock_first(s.drop_first(), handle, i - 1);
    }
}

pub proof fn lemma_find_lock_none(s: Seq<LockEntry>, handle: u32)
    requires
        forall|j: int| 0 <= j < s.len() ==> s[j].handle != handle,
    ensures
        find_lock(s, handle) is None,
    decreases s.len(),
{
    if s.len() > 0 {
        lemma_find_lock_none(s.drop_first(), handle);
    }
}

pub proof fn lemma_unique_after_remove(s: Seq<TrackedEntry>, i: int)
    requires
        unique_keys(s),
        0 <= i < s.len(),
    ensures
        unique_keys(s.remove(i)),
{
    let s2 = s.remove(i);
    assert forall|a: int, b: int| 0 <= a < b < s2.len() implies !entry_matches(
        s2[b],
        s2[a].node_id@,
        s2[a].module_id,
        s2[a].key@,
    ) by {
        let a1 = if a < i { a } else { a + 1 };
        let b1 = if b < i { b } else { b + 1 };
        assert(s2[a] == s[a1]);
        assert(s2[b] == s[b1]);
        assert(!entry_matches(s[b1], s[a1].node_id@, s[a1].module_id, s[a1].key@));
    }
}

impl IndexedScryptoValue {
    /// A copy with the same bytes.
    pub fn duplicate(&self) -> (r: Self)
        ensures
            r.bytes@ == self.bytes@,
    {
        let bytes = self.bytes.clone();
        proof {
            assert(bytes@ =~= self.bytes@);
        }
        IndexedScryptoValue { bytes }
    }
}

/// The shape a present substate takes after being written through a lock:
/// a read-only observation becomes read-and-write, the rest keep their shape.
pub open spec fn spec_written_kind(k: TrackedKind) -> TrackedKind {
    match k {
        TrackedKind::ReadOnlyPresent => TrackedKind::ReadWriteUpdate { read_existent: true },
        other => other,
    }
}

impl Track {
    fn find_lock_entry(&self, handle: u32) -> (r: Option<usize>)
        ensures
            match r {
                Some(i) => i < self.spec_locks().len() && find_lock(self.spec_locks(), handle)
                    == Some(i as int) && self.spec_locks()[i as int].handle == handle,
                None => find_lock(self.spec_locks(), handle) is None,
            },
    {
        let mut i: usize = 0;
        while i < self.locks.len()
            invariant
                i <= self.locks@.len(),
                forall|j: int| 0 <= j < i ==> (#[trigger] self.locks@[j]).handle != handle,
            decreases self.locks@.len() - i,
        {
            if self.locks[i].handle == handle {
                proof {
                    lemma_find_lock_first(self.locks@, handle, i as int);
                }
                return Some(i);
            }
            i = i + 1;
        }
        proof {
            lemma_find_lock_none(self.locks@, handle);
        }
        None
    }

    /// Releases a lock. A force-write lock durably records the current value:
    /// it is copied into the force updates, which survive
    /// `revert_non_force_write_changes`.
    pub fn release_lock(&mut self, handle: u32)
        requires
            old(self).wf(),
            find_lock(old(self).spec_locks(), handle) is Some,
            ({
                let e = old(self).spec_locks()[find_lock(old(self).spec_locks(), handle).unwrap()];
                old(self).summary_of(e.node_id@, e.module_id, e.key@) matches Some(sm) && sm.value
                    is Some && sm.lock != SubstateLockState::Read(0usize)
            }),
        ensures
            final(self).wf(),
            final(self).spec_next_lock_id() == old(self).spec_next_lock_id(),
            final(self).spec_locks() == old(self).spec_locks().remove(
                find_lock(old(self).spec_locks(), handle).unwrap(),
            ),
            ({
                let e = old(self).spec_locks()[find_lock(old(self).spec_locks(), handle).unwrap()];
                let sm = old(self).summary_of(e.node_id@, e.module_id, e.key@).unwrap();
                let unlocked = match sm.lock {
                    SubstateLockState::Read(n) => SubstateLockState::Read((n - 1) as usize),
                    SubstateLockState::Write => SubstateLockState::Read(0usize),
                };
                &&& final(self).summary_of(e.node_id@, e.module_id, e.key@) == Some(
                    TrackedSummary { kind: sm.kind, value: sm.value, lock: unlocked },
                )
                &&& if e.flags.force_write {
                    &&& final(self).spec_force_updates().len() <= old(
                        self,
                    ).spec_force_updates().len() + 1
                    &&& find_index(final(self).spec_force_updates(), e.node_id@, e.module_id,
                        e.key@) matches Some(fi) && summary_of_tracked(
                        &final(self).spec_force_updates()[fi].state,
                    ) == (TrackedSummary {
                        kind: TrackedKind::ReadWriteUpdate { read_existent: true },
                        value: sm.value,
                        lock: SubstateLockState::Read(0usize),
                    })
                } else {
                    final(self).spec_force_updates() == old(self).spec_force_updates()
                }
            }),
    {
        let li = self.find_lock_entry(handle).unwrap();
        let lock_entry = self.locks.remove(li);
        let node_id = lock_entry.node_id;
        let module_id = lock_entry.module_id;
        let key = lock_entry.key;
        let flags = lock_entry.flags;

        let idx = self.find_update(&node_id, module_id, &key).unwrap();
        proof {
            lemma_find_index_valid(self.updates@, node_id@, module_id, key@);
        }

        let lock0 = match self.updates[idx].state.get_substate() {
            Some(s) => s.lock_state,
            None => {
                proof {
                    assert(false);
                }
                return ;
            }
        };
        let mut lock = lock0;
        lock.unlock();

        let ghost mid = self.updates@;
        let mut entry = self.updates.remove(idx);
        entry.state = match entry.state {
            TrackedSubstateKey::New(mut s) => {
                s.lock_state = lock;
                TrackedSubstateKey::New(s)
            }
            TrackedSubstateKey::WriteOnly(Write::Update(mut s)) => {
                s.lock_state = lock;
                TrackedSubstateKey::WriteOnly(Write::Update(s))
            }
            TrackedSubstateKey::ReadOnly(ReadOnly::Existent(mut s)) => {
                s.lock_state = lock;
                TrackedSubstateKey::ReadOnly(ReadOnly::Existent(s))
            }
            TrackedSubstateKey::ReadAndWrite(read, Write::Update(mut s)) => {
                s.lock_state = lock;
                TrackedSubstateKey::ReadAndWrite(read, Write::Update(s))
            }
            other => other,
        };
        self.updates.insert(idx, entry);
        proof {
            assert(self.updates@ =~= mid.update(idx as int, self.updates@[idx as int]));
            lemma_unique_after_update(mid, self.updates@, idx as int);
            lemma_find_keys_eq(mid, self.updates@, node_id@, module_id, key@);
        }

        if flags.force_write {
            let value = match self.updates[idx].state.get_substate() {
                Some(s) => s.value.duplicate(),
                None => {
                    proof {
                        assert(false);
                    }
                    return ;
                }
            };
            let forced = TrackedSubstateKey::ReadAndWrite(
                Read::Existent,
                Write::Update(RuntimeSubstate::new(value)),
            );
            match self.find_force_update(&node_id, module_id, &key) {
                Some(fi) => {
                    let ghost fmid = self.force_updates@;
                    let mut fentry = self.force_updates.remove(fi);
                    fentry.state = forced;
                    self.force_updates.insert(fi, fentry);
                    proof {
                        assert(self.force_updates@ =~= fmid.update(
                            fi as int,
                            self.force_updates@[fi as int],
                        ));
                        lemma_unique_after_update(fmid, self.force_updates@, fi as int);
                        lemma_find_keys_eq(fmid, self.force_updates@, node_id@, module_id, key@);
                        lemma_find_index_valid(fmid, node_id@, module_id, key@);
                    }
                }
                None => {
                    let ghost fmid = self.force_updates@;
                    let fentry = TrackedEntry { node_id, module_id, key, state: forced };
                    proof {
                        lemma_unique_after_push(fmid, fentry);
                    }
                    self.force_updates.push(fentry);
                    proof {
                        lemma_find_index_first(
                            self.force_updates@,
                            self.force_updates@.last().node_id@,
                            module_id,
                            self.force_updates@.last().key@,
                            fmid.len() as int,
                        );
                    }
                }
            }
        }
    }

    fn find_force_update(&self, node_id: &NodeId, module_id: ModuleId, key: &SubstateKey) -> (r:
        Option<usize>)
        ensures
            match r {
                Some(i) => i < self.spec_force_updates().len() && find_index(
                    self.spec_force_updates(), node_id@, module_id, key@) == Some(i as int),
                None => find_index(self.spec_force_updates(), node_id@, module_id, key@) is None,
            },
    {
        let mut i: usize = 0;
        while i < self.force_updates.len()
            invariant
                i <= self.force_updates@.len(),
                forall|j: int| 0 <= j < i ==> !entry_matches(
                    #[trigger] self.force_updates@[j], node_id@, module_id, key@),
            decreases self.force_updates@.len() - i,
        {
            let e = &self.force_updates[i];
            if node_id_eq(&e.node_id, node_id) && e.module_id.0 == module_id.0
                && substate_key_eq(&e.key, key) {
                proof {
                    lemma_find_index_first(
                        self.force_updates@, node_id@, module_id, key@, i as int);
                }
                return Some(i);
            }
            i = i + 1;
        }
        proof {
            lemma_find_index_none(self.force_updates@, node_id@, module_id, key@);
        }
        None
    }
}

} // verus!

verus! {

impl Track {
    /// Reads the substate under an outstanding lock.
    pub fn read_substate(&self, handle: u32) -> (r: &IndexedScryptoValue)
        requires
            self.wf(),
            find_lock(self.spec_locks(), handle) is Some,
            ({
                let e = self.spec_locks()[find_lock(self.spec_locks(), handle).unwrap()];
                self.summary_of(e.node_id@, e.module_id, e.key@) matches Some(sm) && sm.value
                    is Some
            }),
        ensures
            ({
                let e = self.spec_locks()[find_lock(self.spec_locks(), handle).unwrap()];
                Some(r.bytes@) == self.summary_of(e.node_id@, e.module_id, e.key@).unwrap().value
            }),
    {
        let li = self.find_lock_entry(handle).unwrap();
        let e = &self.locks[li];
        let idx = self.find_update(&e.node_id, e.module_id, &e.key).unwrap();
        proof {
            lemma_find_index_valid(self.updates@, e.node_id@, e.module_id, e.key@);
        }
        match self.updates[idx].state.get_substate() {
            Some(s) => &s.value,
            None => {
                proof {
                    assert(false);
                }
                vstd::pervasive::unreached()
            }
        }
    }

    /// Writes the substate under an outstanding lock, which must be mutable.
    /// A read-only observation becomes read-and-write; the lock is kept.
    pub fn update_substate(&mut self, handle: u32, substate_value: IndexedScryptoValue)
        requires
            old(self).wf(),
            find_lock(old(self).spec_locks(), handle) is Some,
            ({
                let e = old(self).spec_locks()[find_lock(old(self).spec_locks(), handle).unwrap()];
                &&& e.flags.mutable
                &&& old(self).summary_of(e.node_id@, e.module_id, e.key@) matches Some(sm)
                    && sm.value is Some
            }),
        ensures
            final(self).wf(),
            final(self).spec_locks() == old(self).spec_locks(),
            final(self).spec_next_lock_id() == old(self).spec_next_lock_id(),
            final(self).spec_force_updates() == old(self).spec_force_updates(),
            ({
                let e = old(self).spec_locks()[find_lock(old(self).spec_locks(), handle).unwrap()];
                let sm = old(self).summary_of(e.node_id@, e.module_id, e.key@).unwrap();
                &&& final(self).summary_of(e.node_id@, e.module_id, e.key@) == Some(
                    TrackedSummary {
                        kind: spec_written_kind(sm.kind),
                        value: Some(substate_value.bytes@),
                        lock: sm.lock,
                    },
                )
                &&& final(self).spec_updates().len() == old(self).spec_updates().len()
                &&& (forall|j: int|
                    0 <= j < old(self).spec_updates().len() && !entry_matches(
                        #[trigger] old(self).spec_updates()[j],
                        e.node_id@,
                        e.module_id,
                        e.key@,
                    ) ==> final(self).spec_updates()[j] == old(self).spec_updates()[j])
            }),
    {
        let li = self.find_lock_entry(handle).unwrap();
        let node_id = self.locks[li].node_id.duplicate();
        let module_id = self.locks[li].module_id;
        let key = self.locks[li].key.duplicate();

        let idx = self.find_update(&node_id, module_id, &key).unwrap();
        proof {
            lemma_find_index_valid(self.updates@, node_id@, module_id, key@);
        }

        let ghost mid = self.updates@;
        let mut entry = self.updates.remove(idx);
        entry.state = match entry.state {
            TrackedSubstateKey::New(mut s) => {
                s.value = substate_value;
                TrackedSubstateKey::New(s)
            }
            TrackedSubstateKey::WriteOnly(Write::Update(mut s)) => {
                s.value = substate_value;
                TrackedSubstateKey::WriteOnly(Write::Update(s))
            }
            TrackedSubstateKey::ReadAndWrite(read, Write::Update(mut s)) => {
                s.value = substate_value;
                TrackedSubstateKey::ReadAndWrite(read, Write::Update(s))
            }
            TrackedSubstateKey::ReadOnly(ReadOnly::Existent(s)) => {
                TrackedSubstateKey::ReadAndWrite(
                    Read::Existent,
                    Write::Update(RuntimeSubstate { value: substate_value, lock_state: s.lock_state }),
                )
            }
            other => {
                proof {
                    assert(false);
                }
                other
            }
        };
        self.updates.insert(idx, entry);
        proof {
            assert(self.updates@ =~= mid.update(idx as int, self.updates@[idx as int]));
            lemma_unique_after_update(mid, self.updates@, idx as int);
            lemma_find_keys_eq(mid, self.updates@, node_id@, module_id, key@);
        }
    }
}

} // verus!

verus! {

/// The shape a substate takes after `set_substate` writes value `v` over it.
pub open spec fn spec_set_kind(prior: Option<TrackedKind>) -> TrackedKind {
    match prior {
        None => TrackedKind::WriteOnlyUpdate,
        Some(k) => match k {
            TrackedKind::New => TrackedKind::New,
            TrackedKind::WriteOnlyUpdate => TrackedKind::WriteOnlyUpdate,
            TrackedKind::WriteOnlyDelete => TrackedKind::WriteOnlyUpdate,
            TrackedKind::ReadWriteUpdate { read_existent } => TrackedKind::ReadWriteUpdate {
                read_existent,
            },
            TrackedKind::ReadWriteDelete { read_existent } => TrackedKind::ReadWriteUpdate {
                read_existent,
            },
            TrackedKind::ReadOnlyPresent => TrackedKind::ReadWriteUpdate { read_existent: true },
            TrackedKind::ReadOnlyAbsent => TrackedKind::ReadWriteUpdate { read_existent: false },
        },
    }
}

impl Track {
    /// Writes a substate without a prior read. Refused while the substate is
    /// locked.
    pub fn set_substate(
        &mut self,
        node_id: NodeId,
        module_id: ModuleId,
        substate_key: SubstateKey,
        substate_value: IndexedScryptoValue,
    ) -> (r: Result<(), AcquireLockError>)
        requires
            old(self).wf(),
        ensures
            final(self).wf(),
            final(self).spec_locks() == old(self).spec_locks(),
            final(self).spec_next_lock_id() == old(self).spec_next_lock_id(),
            final(self).spec_force_updates() == old(self).spec_force_updates(),
            ({
                let prior = old(self).summary_of(node_id@, module_id, substate_key@);
                match r {
                    Ok(_) => {
                        &&& (prior matches Some(sm) ==> sm.lock == SubstateLockState::Read(0usize))
                        &&& final(self).summary_of(node_id@, module_id, substate_key@) == Some(
                            TrackedSummary {
                                kind: spec_set_kind(match prior {
                                    Some(sm) => Some(sm.kind),
                                    None => None,
                                }),
                                value: Some(substate_value.bytes@),
                                lock: SubstateLockState::Read(0usize),
                            },
                        )
                    },
                    Err(e) => {
                        &&& e is SubstateLocked
                        &&& prior matches Some(sm) && sm.value is Some && sm.lock
                            != SubstateLockState::Read(0usize)
                        &&& final(self).spec_updates() == old(self).spec_updates()
                    },
                }
            }),
    {
        match self.find_update(&node_id, module_id, &substate_key) {
            None => {
                let ghost before = self.updates@;
                let entry = TrackedEntry {
                    node_id,
                    module_id,
                    key: substate_key,
                    state: TrackedSubstateKey::WriteOnly(
                        Write::Update(RuntimeSubstate::new(substate_value)),
                    ),
                };
                proof {
                    lemma_unique_after_push(before, entry);
                }
                self.updates.push(entry);
                proof {
                    lemma_find_index_first(
                        self.updates@,
                        self.updates@.last().node_id@,
                        module_id,
                        self.updates@.last().key@,
                        before.len() as int,
                    );
                }
                Ok(())
            }
            Some(idx) => {
                proof {
                    lemma_find_index_valid(self.updates@, node_id@, module_id, substate_key@);
                }
                let locked = match self.updates[idx].state.get_substate() {
                    Some(s) => s.lock_state.is_locked(),
                    None => false,
                };
                if locked {
                    return Err(AcquireLockError::SubstateLocked(
                        node_id,
                        module_id,
                        substate_key,
                    ));
                }
                let ghost mid = self.updates@;
                let mut entry = self.updates.remove(idx);
                entry.state = match entry.state {
                    TrackedSubstateKey::New(mut s) => {
                        s.value = substate_value;
                        TrackedSubstateKey::New(s)
                    }
                    TrackedSubstateKey::WriteOnly(Write::Update(mut s)) => {
                        s.value = substate_value;
                        TrackedSubstateKey::WriteOnly(Write::Update(s))
                    }
                    TrackedSubstateKey::WriteOnly(Write::Delete) => {
                        TrackedSubstateKey::WriteOnly(
                            Write::Update(RuntimeSubstate::new(substate_value)),
                        )
                    }
                    TrackedSubstateKey::ReadAndWrite(read, Write::Update(mut s)) => {
                        s.value = substate_value;
                        TrackedSubstateKey::ReadAndWrite(read, Write::Update(s))
                    }
                    TrackedSubstateKey::ReadAndWrite(read, Write::Delete) => {
                        TrackedSubstateKey::ReadAndWrite(
                            read,
                            Write::Update(RuntimeSubstate::new(substate_value)),
                        )
                    }
                    TrackedSubstateKey::ReadOnly(ReadOnly::Existent(s)) => {
                        TrackedSubstateKey::ReadAndWrite(
                            Read::Existent,
                            Write::Update(
                                RuntimeSubstate {
                                    value: substate_value,
                                    lock_state: s.lock_state,
                                },
                            ),
                        )
                    }
                    TrackedSubstateKey::ReadOnly(ReadOnly::NonExistent) => {
                        TrackedSubstateKey::ReadAndWrite(
                            Read::NonExistent,
                            Write::Update(RuntimeSubstate::new(substate_value)),
                        )
                    }
                };
                self.updates.insert(idx, entry);
                proof {
                    assert(self.updates@ =~= mid.update(idx as int, self.updates@[idx as int]));
                    lemma_unique_after_update(mid, self.updates@, idx as int);
                    lemma_find_keys_eq(mid, self.updates@, node_id@, module_id, substate_key@);
                }
                Ok(())
            }
        }
    }

    /// Deletes a substate, returning what it held. `base` is what the
    /// database returned for the key, consulted when the key is untracked.
    /// Refused while the substate is locked.
    pub fn delete_substate(
        &mut self,
        node_id: &NodeId,
        module_id: ModuleId,
        substate_key: &SubstateKey,
        base: Option<IndexedScryptoValue>,
    ) -> (r: Result<Option<IndexedScryptoValue>, AcquireLockError>)
        requires
            old(self).wf(),
        ensures
            final(self).wf(),
            final(self).spec_locks() == old(self).spec_locks(),
            final(self).spec_next_lock_id() == old(self).spec_next_lock_id(),
            final(self).spec_force_updates() == old(self).spec_force_updates(),
            ({
                let post = spec_post_virtualize(
                    old(self).summary_of(node_id@, module_id, substate_key@),
                    opt_bytes(base),
                    None,
                );
                match r {
                    Ok(prior) => {
                        &&& post.lock == SubstateLockState::Read(0usize)
                        &&& opt_bytes(prior) == post.value
                        &&& final(self).summary_of(node_id@, module_id, substate_key@) == (
                        match post.kind {
                            TrackedKind::New => None::<TrackedSummary>,
                            TrackedKind::WriteOnlyUpdate | TrackedKind::WriteOnlyDelete => Some(
                                TrackedSummary {
                                    kind: TrackedKind::WriteOnlyDelete,
                                    value: None,
                                    lock: SubstateLockState::Read(0usize),
                                },
                            ),
                            TrackedKind::ReadOnlyAbsent => Some(
                                TrackedSummary {
                                    kind: TrackedKind::ReadWriteDelete { read_existent: false },
                                    value: None,
                                    lock: SubstateLockState::Read(0usize),
                                },
                            ),
                            TrackedKind::ReadOnlyPresent => Some(
                                TrackedSummary {
                                    kind: TrackedKind::ReadWriteDelete { read_existent: true },
                                    value: None,
                                    lock: SubstateLockState::Read(0usize),
                                },
                            ),
                            TrackedKind::ReadWriteUpdate { read_existent } => Some(
                                TrackedSummary {
                                    kind: TrackedKind::ReadWriteDelete { read_existent },
                                    value: None,
                                    lock: SubstateLockState::Read(0usize),
                                },
                            ),
                            TrackedKind::ReadWriteDelete { read_existent } => Some(
                                TrackedSummary {
                                    kind: TrackedKind::ReadWriteDelete { read_existent },
                                    value: None,
                                    lock: SubstateLockState::Read(0usize),
                                },
                            ),
                        })
                    },
                    Err(e) => {
                        &&& e is SubstateLocked
                        &&& post.value is Some && post.lock != SubstateLockState::Read(0usize)
                    },
                }
            }),
    {
        let idx = self.get_tracked_substate_virtualize(node_id, module_id, substate_key, base,
            None);

        let locked = match self.updates[idx].state.get_substate() {
            Some(s) => s.lock_state.is_locked(),
            None => false,
        };
        if locked {
            return Err(AcquireLockError::SubstateLocked(
                node_id.duplicate(),
                module_id,
                substate_key.duplicate(),
            ));
        }

        if matches!(self.updates[idx].state, TrackedSubstateKey::New(..)) {
            let ghost mid = self.updates@;
            let entry = self.updates.remove(idx);
            proof {
                lemma_unique_after_remove(mid, idx as int);
                lemma_find_index_valid(self.updates@, node_id@, module_id, substate_key@);
            }
            return Ok(entry.state.into_value());
        }

        let ghost mid = self.updates@;
        let mut entry = self.updates.remove(idx);
        let (new_state, prior) = match entry.state {
            TrackedSubstateKey::New(s) => {
                proof {
                    assert(false);
                }
                (TrackedSubstateKey::New(s), None)
            }
            TrackedSubstateKey::WriteOnly(w) => {
                (TrackedSubstateKey::WriteOnly(Write::Delete), w.into_value())
            }
            TrackedSubstateKey::ReadAndWrite(read, w) => {
                (TrackedSubstateKey::ReadAndWrite(read, Write::Delete), w.into_value())
            }
            TrackedSubstateKey::ReadOnly(ReadOnly::Existent(s)) => {
                (
                    TrackedSubstateKey::ReadAndWrite(Read::Existent, Write::Delete),
                    Some(s.value),
                )
            }
            TrackedSubstateKey::ReadOnly(ReadOnly::NonExistent) => {
                (TrackedSubstateKey::ReadAndWrite(Read::NonExistent, Write::Delete), None)
            }
        };
        entry.state = new_state;
        self.updates.insert(idx, entry);
        proof {
            assert(self.updates@ =~= mid.update(idx as int, self.updates@[idx as int]));
            lemma_unique_after_update(mid, self.updates@, idx as int);
            lemma_find_keys_eq(mid, self.updates@, node_id@, module_id, substate_key@);
        }
        Ok(prior)
    }
}

} // verus!

verus! {

/// One output change corresponds to one tracked entry: same key, and the
/// delta the entry's classification calls for.
pub open spec fn change_matches(
    c: (NodeId, ModuleId, SubstateKey, StateUpdate),
    e: TrackedEntry,
) -> bool {
    c.0@ == e.node_id@ && c.1 == e.module_id && c.2@ == e.key@ && update_matches_tracked(
        &c.3,
        &e.state,
    )
}

impl Track {
    pub closed spec fn spec_new_nodes(&self) -> Seq<NodeId> {
        self.new_nodes@
    }

    /// Creates a node in the overlay: every given substate is tracked as new.
    /// The kernel allocates fresh ids, so the node must be untouched so far.
    pub fn create_node(
        &mut self,
        node_id: NodeId,
        substates: Vec<(ModuleId, SubstateKey, IndexedScryptoValue)>,
    )
        requires
            old(self).wf(),
            forall|j: int|
                0 <= j < old(self).spec_updates().len() ==> (#[trigger] old(
                    self,
                ).spec_updates()[j]).node_id@ != node_id@,
            forall|a: int, b: int|
                0 <= a < b < substates@.len() ==> !((#[trigger] substates@[a]).0 == (
                #[trigger] substates@[b]).0 && substates@[a].1@ == substates@[b].1@),
        ensures
            final(self).wf(),
            final(self).spec_locks() == old(self).spec_locks(),
            final(self).spec_next_lock_id() == old(self).spec_next_lock_id(),
            final(self).spec_force_updates() == old(self).spec_force_updates(),
            final(self).spec_updates().len() == old(self).spec_updates().len()
                + substates@.len(),
            forall|j: int|
                0 <= j < old(self).spec_updates().len() ==> final(self).spec_updates()[j] == old(
                    self,
                ).spec_updates()[j],
            forall|j: int|
                0 <= j < substates@.len() ==> {
                    let e = #[trigger] final(self).spec_updates()[old(
                        self,
                    ).spec_updates().len() + j];
                    &&& e.node_id@ == node_id@
                    &&& e.module_id == substates@[j].0
                    &&& e.key@ == substates@[j].1@
                    &&& e.state.kind() is New
                    &&& e.state.spec_value() == Some(substates@[j].2.bytes@)
                    &&& e.state.spec_lock() == SubstateLockState::Read(0usize)
                },
            final(self).spec_new_nodes() == old(self).spec_new_nodes().push(
                final(self).spec_new_nodes().last(),
            ) && final(self).spec_new_nodes().last()@ == node_id@,
    {
        let ghost orig = self.updates@;
        let ghost items = substates@;
        let mut substates = substates;
        let mut k: usize = 0;
        let n = substates.len();
        while k < n
            invariant
                k <= n,
                n == items.len(),
                substates@ =~= items.subrange(k as int, items.len() as int),
                self.wf(),
                self.locks@ == old(self).locks@,
                self.next_lock_id == old(self).next_lock_id,
                self.force_updates@ == old(self).force_updates@,
                self.new_nodes@ == old(self).new_nodes@,
                orig == old(self).updates@,
                self.updates@.len() == orig.len() + k,
                forall|j: int| 0 <= j < orig.len() ==> self.updates@[j] == orig[j],
                forall|j: int|
                    0 <= j < orig.len() ==> (#[trigger] self.updates@[j]).node_id@ != node_id@,
                forall|a: int, b: int|
                    0 <= a < b < items.len() ==> !((#[trigger] items[a]).0 == (
                    #[trigger] items[b]).0 && items[a].1@ == items[b].1@),
                forall|j: int|
                    0 <= j < k ==> {
                        let e = #[trigger] self.updates@[orig.len() + j];
                        &&& e.node_id@ == node_id@
                        &&& e.module_id == items[j].0
                        &&& e.key@ == items[j].1@
                        &&& e.state.kind() is New
                        &&& e.state.spec_value() == Some(items[j].2.bytes@)
                        &&& e.state.spec_lock() == SubstateLockState::Read(0usize)
                    },
            decreases n - k,
        {
            let (module_id, key, value) = substates.remove(0);
            proof {
                assert(items.subrange(k as int, items.len() as int)[0] == items[k as int]);
                assert(substates@ =~= items.subrange(k as int + 1, items.len() as int));
            }
            let entry = TrackedEntry {
                node_id: node_id.duplicate(),
                module_id,
                key,
                state: TrackedSubstateKey::New(RuntimeSubstate::new(value)),
            };
            proof {
                assert(entry.node_id@ == node_id@);
                assert(entry.module_id == items[k as int].0);
                assert(entry.key@ == items[k as int].1@);
                assert forall|j: int| 0 <= j < self.updates@.len() implies !entry_matches(
                    self.updates@[j],
                    entry.node_id@,
                    entry.module_id,
                    entry.key@,
                ) by {
                    if j < orig.len() {
                        assert(self.updates@[j].node_id@ != node_id@);
                    } else {
                        let jj = j - orig.len();
                        assert(0 <= jj < k);
                        assert(self.updates@[orig.len() + jj] == self.updates@[j]);
                        assert(self.updates@[j].module_id == items[jj].0);
                        assert(self.updates@[j].key@ == items[jj].1@);
                        assert(!(items[jj].0 == items[k as int].0 && items[jj].1@ == items[
                            k as int].1@));
                    }
                }
                lemma_find_index_none(self.updates@, entry.node_id@, entry.module_id, entry.key@);
                lemma_unique_after_push(self.updates@, entry);
            }
            self.updates.push(entry);
            k = k + 1;
        }
        self.new_nodes.push(node_id);
    }

    /// Replaces the overlay with the force updates alone: everything but the
    /// force writes rolls back. Fee locking survives transaction failure this
    /// way.
    pub fn revert_non_force_write_changes(&mut self)
        requires
            old(self).wf(),
        ensures
            final(self).wf(),
            final(self).spec_updates() == old(self).spec_force_updates(),
            final(self).spec_force_updates().len() == 0,
            final(self).spec_locks() == old(self).spec_locks(),
            final(self).spec_next_lock_id() == old(self).spec_next_lock_id(),
    {
        let mut taken: Vec<TrackedEntry> = Vec::new();
        core::mem::swap(&mut taken, &mut self.force_updates);
        self.updates = taken;
    }

    /// Collapses the overlay into one delta per modified key, in the order
    /// the keys were first touched: created substates report `Create`,
    /// written ones `Update`, deleted ones `Delete`. A key merely observed
    /// (read-only, existent or not) yields no delta.
    pub fn finalize(self) -> (r: StateUpdates)
        ensures
            ({
                let picked = spec_modified_upto(self.spec_updates(),
                    self.spec_updates().len() as int);
                &&& r.substate_changes@.len() == picked.len()
                &&& (forall|k: int|
                    0 <= k < picked.len() ==> change_matches(
                        #[trigger] r.substate_changes@[k],
                        self.spec_updates()[picked[k]],
                    ))
            }),
    {
        let ghost orig = self.updates@;
        let mut remaining = self.updates;
        let mut changes: Vec<(NodeId, ModuleId, SubstateKey, StateUpdate)> = Vec::new();
        let ghost mut seen: int = 0;
        while remaining.len() > 0
            invariant
                0 <= seen <= orig.len(),
                seen + remaining@.len() == orig.len(),
                remaining@ == orig.subrange(seen, orig.len() as int),
                changes@.len() == spec_modified_upto(orig, seen).len(),
                forall|k: int|
                    0 <= k < changes@.len() ==> change_matches(
                        #[trigger] changes@[k],
                        orig[spec_modified_upto(orig, seen)[k]],
                    ),
            decreases remaining@.len(),
        {
            let ghost k = seen;
            let entry = remaining.remove(0);
            proof {
                assert(entry == orig[k]);
                assert(remaining@ =~= orig.subrange(k + 1, orig.len() as int));
                lemma_modified_upto_valid(orig, k);
            }
            let TrackedEntry { node_id, module_id, key, state } = entry;
            match state {
                TrackedSubstateKey::New(s) => {
                    changes.push((node_id, module_id, key, StateUpdate::Create(s.value.bytes)));
                }
                TrackedSubstateKey::WriteOnly(Write::Update(s)) => {
                    changes.push((node_id, module_id, key, StateUpdate::Create(s.value.bytes)));
                }
                TrackedSubstateKey::ReadAndWrite(_, Write::Update(s)) => {
                    changes.push((node_id, module_id, key, StateUpdate::Update(s.value.bytes)));
                }
                TrackedSubstateKey::ReadAndWrite(_, Write::Delete) => {
                    changes.push((node_id, module_id, key, StateUpdate::Delete));
                }
                TrackedSubstateKey::WriteOnly(Write::Delete) => {
                    changes.push((node_id, module_id, key, StateUpdate::Delete));
                }
                TrackedSubstateKey::ReadOnly(_) => {}
            }
            proof {
                seen = seen + 1;
            }
        }
        StateUpdates { substate_changes: changes }
    }
}

/// The classification found for a key in a sequence of tracked entries.
pub open spec fn summary_in(s: Seq<TrackedEntry>, n: Seq<u8>, m: ModuleId, k: SubstateKeyV) -> Option<
    TrackedSummary,
> {
    match find_index(s, n, m, k) {
        Some(i) => Some(summary_of_tracked(&s[i].state)),
        None => None,
    }
}

/// Fee locking persists through failure: `revert_non_force_write_changes`
/// replaces the overlay with the force updates, so a key that a force write
/// recorded keeps exactly the recorded value, and a key that no force write
/// touched is absent from the reverted overlay.
pub proof fn lemma_fee_lock_survives_revert(
    force: Seq<TrackedEntry>,
    n: Seq<u8>,
    m: ModuleId,
    k: SubstateKeyV,
)
    ensures
        match find_index(force, n, m, k) {
            Some(i) => summary_in(force, n, m, k) == Some(summary_of_tracked(&force[i].state)),
            None => summary_in(force, n, m, k) is None,
        },
{
}

} // verus!

verus! {

/// The tracked substates of one node, grouped: the flat entries of the
/// track, keyed down to one node, with whether the node was created this
/// transaction.
pub struct TrackedNode {
    pub substates: Vec<(ModuleId, SubstateKey, TrackedSubstateKey)>,
    pub is_new: bool,
}

impl TrackedNode {
    pub fn new(is_new: bool) -> (r: Self)
        ensures
            r.substates@.len() == 0,
            r.is_new == is_new,
    {
        Self { substates: Vec::new(), is_new }
    }
}

/// A node form that can spell itself out as substate values. Blueprints
/// implement it for their initial state.
pub trait TryIntoSubstates {
    fn try_into_substates(self) -> Result<Vec<IndexedScryptoValue>, ()>;
}

} // verus!
