use storage_session::bus::ProgressBus;
use storage_session::error::{map_storage_error, StorageError};
use storage_session::ids::new_operation_id;
use storage_session::progress::{OperationStage, ProgressMessage};

fn msg(id: &str, bytes: usize) -> ProgressMessage {
    ProgressMessage::new(String::from(id)).with_bytes(bytes, Some(1000))
}

#[test]
fn fanout_delivers_exactly_the_sent_messages_in_order() {
    let mut bus = ProgressBus::new();
    let id = String::from("op-1");
    bus.register(id.clone());
    bus.send(&id, msg("op-1", 10));
    bus.send(&id, msg("op-1", 20));
    bus.send(&id, msg("op-1", 30));
    bus.unregister(&id);
    let got = bus.drain(&id);
    assert_eq!(got.len(), 3);
    assert_eq!(got[0].bytes_processed, 10);
    assert_eq!(got[1].bytes_processed, 20);
    assert_eq!(got[2].bytes_processed, 30);
    // A receiver created after the unregistration observes nothing.
    bus.register(id.clone());
    assert!(bus.drain(&id).is_empty());
}

#[test]
fn send_after_unregister_is_dropped() {
    let mut bus = ProgressBus::new();
    let id = String::from("op-2");
    bus.register(id.clone());
    bus.send(&id, msg("op-2", 1));
    bus.unregister(&id);
    bus.send(&id, msg("op-2", 2));
    let got = bus.drain(&id);
    assert_eq!(got.len(), 1);
    assert_eq!(got[0].bytes_processed, 1);
}

#[test]
fn send_without_registration_is_dropped() {
    let mut bus = ProgressBus::new();
    let id = String::from("never-registered");
    bus.send(&id, msg("never-registered", 5));
    assert!(bus.drain(&id).is_empty());
    assert!(!bus.is_registered(&id));
}

#[test]
fn distinct_ids_do_not_cross_talk() {
    let mut bus = ProgressBus::new();
    let a = String::from("op-a");
    let b = String::from("op-b");
    bus.register(a.clone());
    bus.register(b.clone());
    bus.send(&a, msg("op-a", 11));
    bus.send(&b, msg("op-b", 22));
    bus.send(&a, msg("op-a", 33));
    let got_b = bus.drain(&b);
    assert_eq!(got_b.len(), 1);
    assert_eq!(got_b[0].bytes_processed, 22);
    assert_eq!(got_b[0].operation_id, "op-b");
    let got_a = bus.drain(&a);
    assert_eq!(got_a.len(), 2);
    assert_eq!(got_a[0].bytes_processed, 11);
    assert_eq!(got_a[1].bytes_processed, 33);
}

#[test]
fn reregistration_replaces_the_channel() {
    let mut bus = ProgressBus::new();
    let id = String::from("op-3");
    bus.register(id.clone());
    bus.send(&id, msg("op-3", 7));
    bus.register(id.clone());
    assert!(bus.is_registered(&id));
    assert!(bus.drain(&id).is_empty());
}

#[test]
fn progress_message_builders() {
    let m = ProgressMessage::new(String::from("op"));
    assert_eq!(m.operation_id, "op");
    assert_eq!(m.bytes_processed, 0);
    assert_eq!(m.total_bytes, None);
    assert_eq!(m.stage, OperationStage::Initializing);
    assert_eq!(m.message, None);
    let m = m
        .with_stage(OperationStage::Uploading)
        .with_bytes(512, Some(1024))
        .with_message(String::from("halfway"));
    assert_eq!(m.stage, OperationStage::Uploading);
    assert_eq!(m.bytes_processed, 512);
    assert_eq!(m.total_bytes, Some(1024));
    assert_eq!(m.message, Some(String::from("halfway")));
}

#[test]
fn progress_permille_is_exact() {
    let m = ProgressMessage::new(String::from("op")).with_bytes(512, Some(1024));
    assert_eq!(m.progress_permille(), Some(500));
    let m = ProgressMessage::new(String::from("op")).with_bytes(1000, Some(1000));
    assert_eq!(m.progress_permille(), Some(1000));
    let m = ProgressMessage::new(String::from("op")).with_bytes(1, Some(3));
    assert_eq!(m.progress_permille(), Some(333));
    // Undefined without a total, and no division by zero with a zero total.
    let m = ProgressMessage::new(String::from("op")).with_bytes(10, None);
    assert_eq!(m.progress_permille(), None);
    let m = ProgressMessage::new(String::from("op")).with_bytes(10, Some(0));
    assert_eq!(m.progress_permille(), None);
}

#[test]
fn error_messages_render_like_the_taxonomy() {
    assert_eq!(
        map_storage_error(StorageError::NodeCreation(String::from("x"))),
        "Failed to create node: x"
    );
    assert_eq!(
        map_storage_error(StorageError::NodeStart(String::from("y"))),
        "Failed to start node: y"
    );
    assert_eq!(
        map_storage_error(StorageError::NodeNotInitialized),
        "Node is not initialized"
    );
    assert_eq!(
        map_storage_error(StorageError::NodeNotStarted),
        "Node is not started"
    );
    assert_eq!(
        map_storage_error(StorageError::Upload(String::from("u"))),
        "Upload failed: u"
    );
    assert_eq!(
        map_storage_error(StorageError::Download(String::from("d"))),
        "Download failed: d"
    );
    assert_eq!(
        map_storage_error(StorageError::FileNotFound(String::from("/a/b"))),
        "File not found: /a/b"
    );
    assert_eq!(
        map_storage_error(StorageError::InvalidCid(String::from("empty"))),
        "Invalid CID: empty"
    );
    assert_eq!(
        map_storage_error(StorageError::Io(String::from("eof"))),
        "IO error: eof"
    );
    assert_eq!(
        map_storage_error(StorageError::Configuration(String::from("c"))),
        "Configuration error: c"
    );
}

#[test]
fn operation_ids_have_uuid_shape() {
    let id = new_operation_id();
    assert_eq!(id.len(), 36);
    let another = new_operation_id();
    assert_eq!(another.len(), 36);
}
