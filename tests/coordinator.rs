use jwst_node::blob::{assemble_blob, BlobReader, Chunk};
use jwst_node::error::StorageError;
use jwst_node::storage::{store_address, Storage};
use jwst_node::sync::MutationObserver;

fn chunk(bytes: &[u8]) -> Chunk {
    Ok(bytes.to_vec())
}

fn failed(cause: &str) -> Chunk {
    Err(cause.to_string())
}

#[test]
fn store_address_opens_or_creates() {
    assert_eq!(store_address("/tmp/data.db"), "sqlite:/tmp/data.db?mode=rwc");
    assert_eq!(store_address(""), "sqlite:?mode=rwc");
}

#[test]
fn opened_store_records_no_error() {
    let storage: Storage<u32> = Storage::new(Ok(5));
    assert_eq!(storage.error(), None);
    assert!(matches!(storage.store(), Ok(&5)));
}

#[test]
fn failed_open_is_inert() {
    let mut storage: Storage<u32> = Storage::new(Err("unable to open database file".to_string()));
    assert_eq!(storage.error(), Some("unable to open database file".to_string()));
    assert!(matches!(storage.store(), Err(StorageError::NotConnected)));

    let blob = storage.get_blob(Some("ws".to_string()), "b1".to_string());
    match blob {
        Err(e) => assert_eq!(e.message(), "Storage is not connected"),
        Ok(_) => panic!("a handle without a store served a blob"),
    }

    let synced = storage.sync(Ok(((), "ws".to_string())));
    assert!(matches!(synced, Err(StorageError::NotConnected)));

    let connected = storage.connect(Ok(((), "ws".to_string())));
    assert!(connected.is_none());
    assert_eq!(storage.error(), Some("GenericFailure, Storage is not connected".to_string()));
}

#[test]
fn blob_is_concatenation_of_chunks() {
    let chunks = vec![chunk(b"ab"), chunk(b""), chunk(b"cd")];
    let r = assemble_blob(Some("ws".to_string()), "blob".to_string(), chunks);
    assert_eq!(r.unwrap(), b"abcd".to_vec());
}

#[test]
fn empty_blob_stream_gives_empty_content() {
    let r = assemble_blob(None, "blob".to_string(), Vec::new());
    assert_eq!(r.unwrap(), Vec::<u8>::new());
}

#[test]
fn blob_retrieval_is_repeatable() {
    let stream = || vec![chunk(b"hello "), chunk(b"world")];
    let first = assemble_blob(Some("ws".to_string()), "greeting".to_string(), stream()).unwrap();
    let second = assemble_blob(Some("ws".to_string()), "greeting".to_string(), stream()).unwrap();
    assert_eq!(first, second);
    assert_eq!(first, b"hello world".to_vec());
}

#[test]
fn failed_second_chunk_fails_whole_blob() {
    let chunks = vec![chunk(b"ab"), failed("disk I/O error"), chunk(b"cd")];
    let r = assemble_blob(Some("space-1".to_string()), "avatar".to_string(), chunks);
    match r {
        Ok(_) => panic!("a partial blob was returned"),
        Err(e) => {
            let m = e.message();
            assert_eq!(
                m,
                "Failed to read blob file space-1/avatar from stream, error: disk I/O error"
            );
            assert!(m.contains("space-1"));
            assert!(m.contains("avatar"));
        }
    }
}

#[test]
fn last_failure_is_reported() {
    let chunks = vec![failed("first"), chunk(b"x"), failed("second")];
    let r = assemble_blob(None, "b".to_string(), chunks);
    match r {
        Err(e) => assert_eq!(e.message(), "Failed to read blob file /b from stream, error: second"),
        Ok(_) => panic!("a failed stream gave content"),
    }
}

#[test]
fn reader_assembles_incrementally() {
    let storage: Storage<&str> = Storage::new(Ok("store"));
    let (store, reader) = storage.get_blob(None, "global".to_string()).unwrap();
    assert_eq!(*store, "store");
    let opened: Result<u8, ()> = Ok(1);
    let (stream, mut reader) = reader.open(opened).unwrap();
    assert_eq!(stream, 1);
    reader.push_chunk(chunk(b"12"));
    assert_eq!(reader.len(), 2);
    reader.push_chunk(chunk(b"345"));
    assert_eq!(reader.len(), 5);
    assert_eq!(reader.finish().unwrap(), b"12345".to_vec());
}

#[test]
fn unopenable_stream_is_not_connected() {
    let reader = BlobReader::new(Some("ws".to_string()), "missing".to_string());
    let opened: Result<u8, &str> = Err("not found");
    assert!(matches!(reader.open(opened), Err(StorageError::NotConnected)));
}

#[test]
fn failing_client_fails_sync_and_connect() {
    let mut storage: Storage<u32> = Storage::new(Ok(1));
    let synced = storage.sync::<()>(Err("connection refused".to_string()));
    match synced {
        Err(e) => {
            assert!(matches!(e, StorageError::SyncFailed { .. }));
            assert_eq!(e.message(), "connection refused");
        }
        Ok(_) => panic!("a failed session escaped as a workspace"),
    }
    let connected = storage.connect::<()>(Err("connection refused".to_string()));
    assert!(connected.is_none());
    let recorded = storage.error().unwrap();
    assert!(!recorded.is_empty());
    assert_eq!(recorded, "GenericFailure, connection refused");
}

#[test]
fn failing_client_with_empty_cause_records_error() {
    let mut storage: Storage<u32> = Storage::new(Ok(1));
    assert!(storage.connect::<()>(Err(String::new())).is_none());
    assert_eq!(storage.error(), Some("GenericFailure".to_string()));
}

#[test]
fn successful_sync_attaches_observer() {
    let mut storage: Storage<u32> = Storage::new(Ok(1));
    let w = storage.sync(Ok(("doc", "space-9".to_string()))).unwrap();
    assert_eq!(w.doc, "doc");
    assert_eq!(w.observer.workspace_id(), "space-9");
    assert!(w.observer.is_attached());
    let c = storage.connect(Ok((42u8, "space-9".to_string()))).unwrap();
    assert_eq!(c.doc, 42);
    assert_eq!(storage.error(), None);
}

#[test]
fn each_mutation_is_written_in_order() {
    let storage: Storage<u32> = Storage::new(Ok(1));
    let w = storage.sync(Ok(((), "ws-1".to_string()))).unwrap();
    let updates: Vec<Vec<u8>> = vec![vec![1], vec![2, 3], vec![], vec![4]];
    let mut writes = Vec::new();
    for u in &updates {
        writes.push(w.observer.on_mutation(u.clone()).unwrap());
    }
    assert_eq!(writes.len(), updates.len());
    for (write, u) in writes.iter().zip(updates.iter()) {
        assert_eq!(write.workspace_id, "ws-1");
        assert_eq!(&write.update, u);
    }
}

#[test]
fn failed_write_keeps_observing() {
    let observer = MutationObserver::attach("ws".to_string());
    let first = observer.on_mutation(vec![9]).unwrap();
    assert_eq!(first.update, vec![9]);
    let line = observer.on_write_result(Err("database is locked".to_string()));
    assert_eq!(line, Some("Failed to write update to storage: database is locked".to_string()));
    assert!(observer.is_attached());
    let second = observer.on_mutation(vec![10]).unwrap();
    assert_eq!(second.workspace_id, "ws");
    assert_eq!(second.update, vec![10]);
    assert_eq!(observer.on_write_result(Ok(())), None);
}

#[test]
fn released_observer_writes_nothing() {
    let mut observer = MutationObserver::attach("ws".to_string());
    assert!(observer.on_mutation(vec![1]).is_some());
    observer.release();
    assert!(!observer.is_attached());
    assert!(observer.on_mutation(vec![2]).is_none());
    assert!(observer.on_mutation(vec![]).is_none());
}

#[test]
fn error_messages() {
    assert_eq!(StorageError::NotConnected.message(), "Storage is not connected");
    let e = StorageError::BlobRead {
        workspace_id: Some("w".to_string()),
        id: "i".to_string(),
        cause: "c".to_string(),
    };
    assert_eq!(e.message(), "Failed to read blob file w/i from stream, error: c");
}
