use lfs_os::transfer::Transfer;
use object_store::memory::InMemory;
use object_store::path::Path;
use object_store::ObjectStore;

#[test]
fn download_of_missing_object_is_a_store_error() {
    let rt = tokio::runtime::Runtime::new().unwrap();
    let store = InMemory::new();
    let oid = String::from("ab12cdef");
    let key = Path::from(oid.clone());
    let got = rt.block_on(store.get(&key));
    // The store reports the absence; the agent treats it as fatal and never
    // starts the local transfer, so no progress and no completion is sent.
    assert!(matches!(got, Err(object_store::Error::NotFound { .. })));
    let t = Transfer::new(oid);
    assert_eq!(t.bytes_so_far(), 0);
}
