use storage_session::error::StorageError;
use storage_session::manager::{CreationOutcome, StartOutcome, StorageManager};
use storage_session::node::{create_node_config, NodeFacts, NodeHandle};
use storage_session::progress::OperationStage;
use storage_session::transfer::FileProbe;

fn started_manager() -> StorageManager {
    let mut m = StorageManager::new(create_node_config(String::from("/tmp/node_data")));
    m.initialize_node(CreationOutcome::Created(NodeHandle {
        started: false,
        peer_id: Some(String::from("peer-abc")),
        version: None,
        repo_path: None,
    }))
    .unwrap();
    m.start_node(StartOutcome::Started(NodeFacts {
        peer_id: Some(String::from("peer-abc")),
        version: None,
        repo_path: None,
        connected_peers: 1,
    }))
    .unwrap();
    m
}

#[test]
fn upload_narrates_and_reports_the_full_size() {
    let mut m = started_manager();
    let id = String::from("up-1");
    let size = m
        .upload_begin(&id, String::from("/tmp/data.bin"), FileProbe::Found(1234))
        .unwrap();
    assert_eq!(size, 1234);

    let early = m.drain_progress(&id);
    assert_eq!(early.len(), 2);
    assert_eq!(early[0].stage, OperationStage::Initializing);
    assert_eq!(early[0].bytes_processed, 0);
    assert_eq!(early[1].stage, OperationStage::Uploading);
    assert_eq!(early[1].total_bytes, Some(1234));

    m.record_upload_progress(&id, 600, Some(1234));
    let resp = m
        .upload_finish(&id, 1234, 7, Ok(String::from("cid-xyz")))
        .unwrap();
    assert_eq!(resp.cid, "cid-xyz");
    assert_eq!(resp.size, 1234);
    assert_eq!(resp.duration_ms, 7);
    assert!(resp.verified);

    let late = m.drain_progress(&id);
    assert_eq!(late.len(), 2);
    assert_eq!(late[0].stage, OperationStage::Uploading);
    assert_eq!(late[0].bytes_processed, 600);
    // The final message of a clean upload of S bytes reports S of S bytes.
    assert_eq!(late[1].stage, OperationStage::Completed);
    assert_eq!(late[1].bytes_processed, 1234);
    assert_eq!(late[1].total_bytes, Some(1234));
    // The sender is gone: nothing can be appended any more.
    assert!(!m.bus.is_registered(&id));
}

#[test]
fn upload_requires_a_started_node() {
    let mut m = StorageManager::new(create_node_config(String::from("/tmp/d")));
    let id = String::from("up-2");
    let r = m.upload_begin(&id, String::from("/tmp/f"), FileProbe::Found(10));
    assert_eq!(r, Err(StorageError::NodeNotInitialized));
    assert!(!m.bus.is_registered(&id));

    m.initialize_node(CreationOutcome::Created(NodeHandle {
        started: false,
        peer_id: None,
        version: None,
        repo_path: None,
    }))
    .unwrap();
    let r = m.upload_begin(&id, String::from("/tmp/f"), FileProbe::Found(10));
    assert_eq!(r, Err(StorageError::NodeNotStarted));
    assert!(!m.bus.is_registered(&id));
}

#[test]
fn upload_rejects_a_missing_file() {
    let mut m = started_manager();
    let id = String::from("up-3");
    let r = m.upload_begin(&id, String::from("/tmp/missing.bin"), FileProbe::Missing);
    assert_eq!(
        r,
        Err(StorageError::FileNotFound(String::from("/tmp/missing.bin")))
    );
    assert!(!m.bus.is_registered(&id));
    let r = m.upload_begin(
        &id,
        String::from("/tmp/f"),
        FileProbe::IoFailed(String::from("permission denied")),
    );
    assert_eq!(r, Err(StorageError::Io(String::from("permission denied"))));
}

#[test]
fn failed_upload_still_unregisters() {
    let mut m = started_manager();
    let id = String::from("up-4");
    m.upload_begin(&id, String::from("/tmp/f"), FileProbe::Found(50))
        .unwrap();
    let r = m.upload_finish(&id, 50, 3, Err(String::from("connection lost")));
    assert_eq!(
        r,
        Err(StorageError::Upload(String::from("connection lost")))
    );
    assert!(!m.bus.is_registered(&id));
    // No completion message was narrated.
    let msgs = m.drain_progress(&id);
    assert!(msgs.iter().all(|p| p.stage != OperationStage::Completed));
}

#[test]
fn download_narrates_and_reports_where_it_saved() {
    let mut m = started_manager();
    let id = String::from("down-1");
    m.download_begin(&id, &String::from("bafy-content")).unwrap();
    m.record_download_progress(&id, 1024, Some(2048));
    let resp = m
        .download_finish(
            &id,
            String::from("bafy-content"),
            String::from("/tmp/saved.bin"),
            11,
            Ok(2048),
        )
        .unwrap();
    assert_eq!(resp.cid, "bafy-content");
    assert_eq!(resp.size, 2048);
    assert_eq!(resp.duration_ms, 11);
    assert!(resp.verified);
    assert_eq!(resp.filepath, Some(String::from("/tmp/saved.bin")));

    let msgs = m.drain_progress(&id);
    assert_eq!(msgs.len(), 4);
    assert_eq!(msgs[0].stage, OperationStage::Initializing);
    assert_eq!(msgs[1].stage, OperationStage::Downloading);
    assert_eq!(msgs[2].bytes_processed, 1024);
    assert_eq!(msgs[3].stage, OperationStage::Completed);
    assert_eq!(msgs[3].bytes_processed, 2048);
    assert_eq!(msgs[3].total_bytes, Some(2048));
}

#[test]
fn download_rejects_an_empty_cid_without_leaking() {
    let mut m = started_manager();
    let id = String::from("down-2");
    let r = m.download_begin(&id, &String::new());
    assert_eq!(
        r,
        Err(StorageError::InvalidCid(String::from("CID cannot be empty")))
    );
    assert!(!m.bus.is_registered(&id));

    // A later registration under a fresh id succeeds and is independent.
    let fresh = String::from("down-3");
    m.download_begin(&fresh, &String::from("bafy-ok")).unwrap();
    assert!(m.bus.is_registered(&fresh));
    let msgs = m.drain_progress(&fresh);
    assert_eq!(msgs.len(), 2);
    assert_eq!(msgs[1].stage, OperationStage::Downloading);
}

#[test]
fn failed_download_maps_and_unregisters() {
    let mut m = started_manager();
    let id = String::from("down-4");
    m.download_begin(&id, &String::from("bafy")).unwrap();
    let r = m.download_finish(
        &id,
        String::from("bafy"),
        String::from("/tmp/out"),
        2,
        Err(String::from("not found")),
    );
    assert_eq!(r, Err(StorageError::Download(String::from("not found"))));
    assert!(!m.bus.is_registered(&id));
}

#[test]
fn download_requires_a_started_node() {
    let mut m = StorageManager::new(create_node_config(String::from("/tmp/d")));
    let id = String::from("down-5");
    let r = m.download_begin(&id, &String::from("bafy"));
    assert_eq!(r, Err(StorageError::NodeNotInitialized));
    assert!(!m.bus.is_registered(&id));
}

#[test]
fn concurrent_transfers_see_only_their_own_progress() {
    let mut m = started_manager();
    let up = String::from("op-upload");
    let down = String::from("op-download");
    m.upload_begin(&up, String::from("/tmp/a.bin"), FileProbe::Found(100))
        .unwrap();
    m.download_begin(&down, &String::from("bafy-b")).unwrap();

    m.record_upload_progress(&up, 10, Some(100));
    m.record_download_progress(&down, 20, None);
    m.record_upload_progress(&up, 90, Some(100));

    let up_msgs = m.drain_progress(&up);
    assert!(up_msgs.iter().all(|p| p.operation_id == "op-upload"));
    assert_eq!(up_msgs.len(), 4);
    assert_eq!(up_msgs[2].bytes_processed, 10);
    assert_eq!(up_msgs[3].bytes_processed, 90);

    let down_msgs = m.drain_progress(&down);
    assert!(down_msgs.iter().all(|p| p.operation_id == "op-download"));
    assert_eq!(down_msgs.len(), 3);
    assert_eq!(down_msgs[2].bytes_processed, 20);
}
