use api_server::error::StorageError;
use api_server::registry::{get_current_storage, init_current_library_dir, init_storage_map, set_storage};

#[test]
fn registry_starts_empty() {
    let map = init_storage_map::<u32>();
    assert!(matches!(get_current_storage(&map, ""), Err(StorageError::NoStorageFound)));
    assert_eq!(init_current_library_dir(), "");
}

#[test]
fn registered_storage_is_found() {
    let mut map = init_storage_map::<u32>();
    set_storage(&mut map, "/lib/a".to_string(), 1);
    set_storage(&mut map, "/lib/b".to_string(), 2);
    set_storage(&mut map, "/lib/a".to_string(), 3);
    assert_eq!(*get_current_storage(&map, "/lib/a").unwrap(), 3);
    assert_eq!(*get_current_storage(&map, "/lib/b").unwrap(), 2);
    assert!(matches!(get_current_storage(&map, "/lib/c"), Err(StorageError::NoStorageFound)));
}
