use lfs_os::protocol::TransferResponse;
use lfs_os::transfer::{local_path, Outbound, Transfer};

#[test]
fn local_path_shards_by_prefix() {
    assert_eq!(local_path("ab12cdef"), ".git/lfs/objects/ab/12/ab12cdef");
    assert_eq!(local_path("abcd"), ".git/lfs/objects/ab/cd/abcd");
    assert_eq!(local_path("ab12cdef"), local_path("ab12cdef"));
    assert_ne!(local_path("ab12cdef"), local_path("ab12cdee"));
}

#[test]
fn upload_of_ten_bytes_in_one_chunk() {
    let mut t = Transfer::new(String::from("ab12cd"));
    let p = t.on_chunk(10);
    assert_eq!(
        p.json(),
        "{\"event\":\"progress\",\"oid\":\"ab12cd\",\"bytesSoFar\":10,\"bytesSinceLast\":10}"
    );
    let c = t.finish_upload();
    assert_eq!(c.json(), "{\"event\":\"complete\",\"oid\":\"ab12cd\"}");
}

#[test]
fn download_progress_accumulates() {
    let mut t = Transfer::new(String::from("ab12cdef"));
    let chunks = [3usize, 5, 1];
    let mut last = 0;
    for (k, c) in chunks.iter().enumerate() {
        let p = t.on_chunk(*c);
        assert!(p.bytes_so_far > last);
        assert_eq!(p.bytes_since_last, *c);
        last = p.bytes_so_far;
        assert_eq!(last, chunks[..=k].iter().sum::<usize>());
    }
    assert_eq!(t.bytes_so_far(), 9);
    match t.finish_download() {
        TransferResponse::Successful { event, oid, path } => {
            assert_eq!(event, "complete");
            assert_eq!(oid, "ab12cdef");
            assert_eq!(path.as_deref(), Some(".git/lfs/objects/ab/12/ab12cdef"));
        }
        TransferResponse::Error { .. } => panic!("a download without failure completes"),
    }
}

#[test]
fn refused_upload_reports_code_one() {
    let mut t = Transfer::new(String::from("abcd"));
    let c = t.finish_refused();
    assert_eq!(
        c.json(),
        "{\"event\":\"complete\",\"oid\":\"abcd\",\"error\":{\"code\":1,\"message\":\"Unable to create object in remote store\"}}"
    );
}

#[test]
fn can_count_guards_overflow() {
    let mut t = Transfer::new(String::from("abcd"));
    assert!(t.can_count(usize::MAX));
    t.on_chunk(usize::MAX - 1);
    assert!(t.can_count(1));
    assert!(!t.can_count(2));
}

#[test]
fn upload_reads_until_empty_read() {
    let mut t = Transfer::new(String::from("ab12cd"));
    match t.on_read(4096) {
        Outbound::Progress(p) => {
            assert_eq!(p.bytes_so_far, 4096);
            assert_eq!(p.bytes_since_last, 4096);
        }
        Outbound::Complete(_) => panic!("a non-empty read is progress"),
    }
    match t.on_read(6) {
        Outbound::Progress(p) => {
            assert_eq!(p.bytes_so_far, 4102);
            assert_eq!(p.bytes_since_last, 6);
        }
        Outbound::Complete(_) => panic!("a non-empty read is progress"),
    }
    match t.on_read(0) {
        Outbound::Complete(c) => {
            assert_eq!(c.json(), "{\"event\":\"complete\",\"oid\":\"ab12cd\"}")
        }
        Outbound::Progress(_) => panic!("an empty read ends the upload"),
    }
}
