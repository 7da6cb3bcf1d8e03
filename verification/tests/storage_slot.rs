use linera_execution::storage_slot::{
    access_decision, release_decision, GuardRelease, GuardReleaseError, SlotObservation,
    StorageAccessError, StorageRead, SystemApi,
};

#[test]
fn access_of_locked_slot_is_concurrent() {
    assert_eq!(
        access_decision::<u32>(SlotObservation::Locked),
        Err(StorageAccessError::ConcurrentAccess)
    );
}

#[test]
fn access_of_empty_slot_is_released() {
    assert_eq!(
        access_decision::<u32>(SlotObservation::Unlocked(None)),
        Err(StorageAccessError::StorageReleased)
    );
}

#[test]
fn access_of_full_slot_gives_its_content() {
    assert_eq!(access_decision(SlotObservation::Unlocked(Some(7u32))), Ok(7));
}

#[test]
fn release_of_locked_slot_is_refused() {
    assert_eq!(
        release_decision::<u32>(&SlotObservation::Locked),
        Err(GuardReleaseError::StorageInUse)
    );
}

#[test]
fn release_of_free_slot_succeeds() {
    assert_eq!(release_decision(&SlotObservation::Unlocked(Some(3u8))), Ok(()));
    assert_eq!(release_decision::<u8>(&SlotObservation::Unlocked(None)), Ok(()));
}

#[test]
fn writable_storage_is_read_back() {
    let storage: &str = "writable";
    let (api, _guard) = SystemApi::new_writable(storage);
    assert_eq!(api.storage().result, Ok("writable"));
    // Reading leaves the lock free for the next read.
    assert_eq!(api.storage().result, Ok("writable"));
}

#[test]
fn queryable_storage_is_read_back() {
    let (api, _guard) = SystemApi::new_queryable(42u64);
    assert_eq!(api.storage().result, Ok(42));
}

#[test]
fn no_read_after_guard_release() {
    let (api, guard) = SystemApi::new_writable(5i32);
    assert_eq!(api.storage().result, Ok(5));
    assert_eq!(guard.release().result, Ok(()));
    assert_eq!(api.storage().result, Err(StorageAccessError::StorageReleased));
}

#[test]
fn release_twice_is_release_once() {
    let (api, guard) = SystemApi::new_queryable(1u16);
    assert_eq!(guard.release().result, Ok(()));
    assert_eq!(guard.release().result, Ok(()));
    assert_eq!(api.storage().result, Err(StorageAccessError::StorageReleased));
}

#[test]
fn guards_of_different_interfaces_are_independent() {
    let (api_a, guard_a) = SystemApi::new_writable('a');
    let (api_b, _guard_b) = SystemApi::new_writable('b');
    assert_eq!(guard_a.release().result, Ok(()));
    assert_eq!(api_a.storage().result, Err(StorageAccessError::StorageReleased));
    assert_eq!(api_b.storage().result, Ok('b'));
}

#[test]
fn read_reports_what_it_saw() {
    let (api, guard) = SystemApi::new_writable(8u32);
    assert_eq!(
        api.storage(),
        StorageRead { observed: SlotObservation::Unlocked(Some(8)), result: Ok(8) }
    );
    assert_eq!(
        guard.release(),
        GuardRelease { observed: SlotObservation::Unlocked(Some(8)), result: Ok(()) }
    );
    assert_eq!(
        api.storage(),
        StorageRead {
            observed: SlotObservation::Unlocked(None),
            result: Err(StorageAccessError::StorageReleased),
        }
    );
    assert_eq!(
        guard.release(),
        GuardRelease { observed: SlotObservation::Unlocked(None), result: Ok(()) }
    );
}
