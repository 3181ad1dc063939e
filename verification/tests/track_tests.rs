use radix_engine::track::{
    AcquireLockError, IndexedScryptoValue, LockFlags, ModuleId, NodeId, StateUpdate,
    SubstateKey, SubstateLockState, Track,
};

fn node(tag: u8) -> NodeId {
    let mut bytes = vec![tag];
    bytes.extend(vec![7u8; 26]);
    NodeId(bytes)
}

fn value(bytes: &[u8]) -> IndexedScryptoValue {
    IndexedScryptoValue::from_vec(bytes.to_vec())
}

#[test]
fn read_after_acquire_returns_base_value() {
    let mut track = Track::new();
    let n = node(1);
    let key = SubstateKey::Field(0);
    let handle = track
        .acquire_lock(&n, ModuleId(0), &key, LockFlags::read_only(), Some(value(&[1, 2, 3])))
        .unwrap();
    assert_eq!(track.read_substate(handle).bytes, vec![1, 2, 3]);
}

#[test]
fn missing_substate_is_not_found() {
    let mut track = Track::new();
    let n = node(1);
    let key = SubstateKey::Field(0);
    let result = track.acquire_lock(&n, ModuleId(0), &key, LockFlags::read_only(), None);
    assert!(matches!(result, Err(AcquireLockError::NotFound(..))));
}

#[test]
fn mutable_lock_excludes_other_locks() {
    let mut track = Track::new();
    let n = node(1);
    let key = SubstateKey::Field(0);
    let _h = track
        .acquire_lock(&n, ModuleId(0), &key, LockFlags::mutable(), Some(value(&[9])))
        .unwrap();
    let second = track.acquire_lock(&n, ModuleId(0), &key, LockFlags::read_only(), None);
    assert!(matches!(second, Err(AcquireLockError::SubstateLocked(..))));
}

#[test]
fn read_locks_are_shared_and_exclude_a_writer() {
    let mut track = Track::new();
    let n = node(1);
    let key = SubstateKey::Field(0);
    let h1 = track
        .acquire_lock(&n, ModuleId(0), &key, LockFlags::read_only(), Some(value(&[9])))
        .unwrap();
    let h2 = track
        .acquire_lock(&n, ModuleId(0), &key, LockFlags::read_only(), None)
        .unwrap();
    assert_ne!(h1, h2);
    let writer = track.acquire_lock(&n, ModuleId(0), &key, LockFlags::read_only(), None);
    assert!(writer.is_ok());
    let mutable = track.acquire_lock(&n, ModuleId(0), &key, LockFlags::mutable(), None);
    assert!(matches!(mutable, Err(AcquireLockError::SubstateLocked(..))));
}

#[test]
fn update_through_lock_changes_the_value() {
    let mut track = Track::new();
    let n = node(1);
    let key = SubstateKey::Field(0);
    let handle = track
        .acquire_lock(&n, ModuleId(0), &key, LockFlags::mutable(), Some(value(&[1])))
        .unwrap();
    track.update_substate(handle, value(&[4, 5]));
    assert_eq!(track.read_substate(handle).bytes, vec![4, 5]);
    track.release_lock(handle);
    let updates = track.finalize();
    assert_eq!(updates.substate_changes.len(), 1);
    match &updates.substate_changes[0].3 {
        StateUpdate::Update(bytes) => assert_eq!(bytes, &vec![4, 5]),
        other => panic!("unexpected update kind: {:?}", other),
    }
}

#[test]
fn unmodified_base_refuses_written_substates() {
    let mut track = Track::new();
    let n = node(1);
    let key = SubstateKey::Field(0);
    track
        .set_substate(node(1), ModuleId(0), SubstateKey::Field(0), value(&[1]))
        .unwrap();
    let flags = LockFlags { mutable: false, unmodified_base: true, force_write: false };
    let result = track.acquire_lock(&n, ModuleId(0), &key, flags, None);
    assert!(matches!(result, Err(AcquireLockError::LockUnmodifiedBaseOnNewSubstate(..))));
}

#[test]
fn set_and_delete_collapse_to_deltas() {
    let mut track = Track::new();
    track
        .set_substate(node(1), ModuleId(0), SubstateKey::Field(0), value(&[1]))
        .unwrap();
    track
        .set_substate(node(1), ModuleId(0), SubstateKey::MapKey(vec![9]), value(&[2]))
        .unwrap();
    let deleted = track
        .delete_substate(&node(1), ModuleId(0), &SubstateKey::MapKey(vec![9]), None)
        .unwrap();
    assert_eq!(deleted.unwrap().bytes, vec![2]);
    let updates = track.finalize();
    assert_eq!(updates.substate_changes.len(), 2);
    assert!(matches!(updates.substate_changes[0].3, StateUpdate::Create(_)));
    assert!(matches!(updates.substate_changes[1].3, StateUpdate::Delete));
}

#[test]
fn create_node_tracks_every_substate_as_new() {
    let mut track = Track::new();
    track.create_node(
        node(2),
        vec![
            (ModuleId(0), SubstateKey::Field(0), value(&[1])),
            (ModuleId(0), SubstateKey::Field(1), value(&[2])),
        ],
    );
    let updates = track.finalize();
    assert_eq!(updates.substate_changes.len(), 2);
    assert!(matches!(updates.substate_changes[0].3, StateUpdate::Create(_)));
    assert!(matches!(updates.substate_changes[1].3, StateUpdate::Create(_)));
}

#[test]
fn fee_lock_survives_revert() {
    let mut track = Track::new();
    let fee_vault = node(3);
    let key = SubstateKey::Field(0);

    // The fee vault's debit goes through a force-write lock.
    let flags = LockFlags { mutable: true, unmodified_base: false, force_write: true };
    let handle = track
        .acquire_lock(&fee_vault, ModuleId(0), &key, flags, Some(value(&[100])))
        .unwrap();
    track.update_substate(handle, value(&[90]));
    track.release_lock(handle);

    // Unrelated work that the failure must roll back.
    track
        .set_substate(node(4), ModuleId(0), SubstateKey::Field(0), value(&[7]))
        .unwrap();

    track.revert_non_force_write_changes();
    let updates = track.finalize();
    assert_eq!(updates.substate_changes.len(), 1);
    assert_eq!(updates.substate_changes[0].0 .0, fee_vault.0);
    match &updates.substate_changes[0].3 {
        StateUpdate::Update(bytes) => assert_eq!(bytes, &vec![90]),
        other => panic!("unexpected update kind: {:?}", other),
    }
}

#[test]
fn lock_state_counts_readers_and_one_writer() {
    let mut state = SubstateLockState::no_lock();
    assert!(!state.is_locked());
    state.try_lock(LockFlags::read_only()).unwrap();
    state.try_lock(LockFlags::read_only()).unwrap();
    assert!(state.is_locked());
    assert!(state.try_lock(LockFlags::mutable()).is_err());

    let mut writer = SubstateLockState::no_lock();
    writer.try_lock(LockFlags::mutable()).unwrap();
    assert!(writer.try_lock(LockFlags::read_only()).is_err());
    assert!(writer.try_lock(LockFlags::mutable()).is_err());
}

#[test]
fn merely_read_substates_leave_no_delta() {
    let mut track = Track::new();
    let n = node(5);
    let key = SubstateKey::Field(0);
    let handle = track
        .acquire_lock(&n, ModuleId(0), &key, LockFlags::read_only(), Some(value(&[1, 2])))
        .unwrap();
    let _ = track.read_substate(handle);
    track.release_lock(handle);
    // An absent key observed read-only leaves no delta either.
    let absent = track.acquire_lock(&node(6), ModuleId(0), &SubstateKey::Field(1),
        LockFlags::read_only(), None);
    assert!(absent.is_err());
    let updates = track.finalize();
    assert_eq!(updates.substate_changes.len(), 0);
}

#[test]
fn unmodified_base_refuses_a_freshly_created_substate() {
    let mut track = Track::new();
    track.create_node(node(7), vec![(ModuleId(0), SubstateKey::Field(0), value(&[1]))]);
    let flags = LockFlags { mutable: false, unmodified_base: true, force_write: false };
    let result = track.acquire_lock(&node(7), ModuleId(0), &SubstateKey::Field(0), flags, None);
    assert!(matches!(result, Err(AcquireLockError::LockUnmodifiedBaseOnNewSubstate(..))));
}
