use norm::native::{NORM_NODE_ANY, NORM_NODE_INVALID};
use norm::types::{NORM_OBJECT_DATA, NORM_OBJECT_FILE, NORM_OBJECT_NONE, NORM_OBJECT_STREAM};
use norm::{Call, Error, FlushMode, Instance, Node, Object, ObjectType, Recorder, Session};

fn object_releases(rec: &Recorder, h: u64) -> usize {
    rec.log()
        .iter()
        .filter(|c| matches!(c, Call::ObjectRelease { object } if *object == h))
        .count()
}

fn node_releases(rec: &Recorder, h: u64) -> usize {
    rec.log()
        .iter()
        .filter(|c| matches!(c, Call::NodeRelease { node } if *node == h))
        .count()
}

fn started_session(rec: &mut Recorder) -> Session {
    let inst = Instance::new(rec, false).unwrap();
    let session = inst.create_session(rec, "224.1.2.3", 6003, NORM_NODE_ANY).unwrap();
    assert!(session.start_sender(rec, 1, 1 << 20, 1400, 64, 16, Some(5)).is_ok());
    session
}

#[test]
fn owned_object_released_exactly_once() {
    let mut rec = Recorder::new();
    let session = started_session(&mut rec);
    let obj = session.data_enqueue(&mut rec, b"hello", None).unwrap();
    let h = obj.handle();
    assert!(obj.is_owned());
    assert_eq!(obj.get_type(&mut rec), ObjectType::Data);
    assert_eq!(object_releases(&rec, h), 0);
    obj.dispose(&mut rec);
    assert_eq!(object_releases(&rec, h), 1);
}

#[test]
fn borrowed_object_never_released() {
    let mut rec = Recorder::new();
    let h = rec.add_object(NORM_OBJECT_DATA, None, vec![1, 2, 3], 0);
    let obj = Object::from_handle_unowned(h);
    assert!(!obj.is_owned());
    obj.dispose(&mut rec);
    assert_eq!(object_releases(&rec, h), 0);
    assert!(rec.log().is_empty());
}

#[test]
fn owned_and_borrowed_nodes() {
    let mut rec = Recorder::new();
    let owned = Node::from_handle(41);
    let borrowed = Node::from_handle_unowned(42);
    assert_eq!(owned.id(&mut rec), 41);
    borrowed.dispose(&mut rec);
    assert_eq!(node_releases(&rec, 42), 0);
    owned.dispose(&mut rec);
    assert_eq!(node_releases(&rec, 41), 1);
}

#[test]
fn explicit_retain_and_release_are_forwarded() {
    let mut rec = Recorder::new();
    let node = Node::from_handle_unowned(9);
    node.retain(&mut rec);
    node.release(&mut rec);
    let obj = Object::from_handle_unowned(10);
    obj.retain(&mut rec);
    obj.release(&mut rec);
    assert_eq!(
        rec.log().clone(),
        vec![
            Call::NodeRetain { node: 9 },
            Call::NodeRelease { node: 9 },
            Call::ObjectRetain { object: 10 },
            Call::ObjectRelease { object: 10 },
        ]
    );
}

#[test]
fn get_info_without_info_is_empty() {
    let mut rec = Recorder::new();
    let h = rec.add_object(NORM_OBJECT_FILE, None, Vec::new(), 0);
    let obj = Object::from_handle_unowned(h);
    assert!(!obj.has_info(&mut rec));
    assert_eq!(obj.get_info(&mut rec), Ok(Vec::new()));
}

#[test]
fn get_info_with_empty_info_is_empty() {
    let mut rec = Recorder::new();
    let h = rec.add_object(NORM_OBJECT_FILE, Some(Vec::new()), Vec::new(), 0);
    let obj = Object::from_handle_unowned(h);
    assert!(obj.has_info(&mut rec));
    assert_eq!(obj.get_info(&mut rec), Ok(Vec::new()));
}

#[test]
fn get_info_returns_the_info() {
    let mut rec = Recorder::new();
    let session = started_session(&mut rec);
    let obj = session.data_enqueue(&mut rec, b"payload", Some(b"name.txt")).unwrap();
    assert_eq!(obj.get_info(&mut rec), Ok(b"name.txt".to_vec()));
}

#[test]
fn access_data_requires_data_kind() {
    let mut rec = Recorder::new();
    for kind in [NORM_OBJECT_FILE, NORM_OBJECT_STREAM, NORM_OBJECT_NONE] {
        let h = rec.add_object(kind, None, vec![7], 0);
        let obj = Object::from_handle_unowned(h);
        assert_eq!(obj.access_data(&mut rec), Err(Error::InvalidParameter));
    }
    let h = rec.add_object(NORM_OBJECT_DATA, None, vec![7, 8], 0);
    assert_eq!(Object::from_handle_unowned(h).access_data(&mut rec), Ok(vec![7, 8]));
}

#[test]
fn access_data_without_buffer_is_null_pointer() {
    let mut rec = Recorder::new();
    let h = rec.add_object(NORM_OBJECT_DATA, None, Vec::new(), 0);
    assert_eq!(Object::from_handle_unowned(h).access_data(&mut rec), Err(Error::NullPointer));
}

#[test]
fn access_data_unknown_object_is_invalid_parameter() {
    let mut rec = Recorder::new();
    let obj = Object::from_handle_unowned(999);
    assert_eq!(obj.get_type(&mut rec), ObjectType::Unspecified);
    assert_eq!(obj.access_data(&mut rec), Err(Error::InvalidParameter));
}

#[test]
fn stream_operations_require_stream_kind() {
    let mut rec = Recorder::new();
    for kind in [NORM_OBJECT_DATA, NORM_OBJECT_FILE] {
        let h = rec.add_object(kind, None, vec![1, 2, 3], 0);
        let obj = Object::from_handle_unowned(h);
        let mut buf = [0u8; 4];
        assert_eq!(obj.stream_write(&mut rec, b"x"), Err(Error::InvalidParameter));
        assert_eq!(obj.stream_flush(&mut rec, true, FlushMode::Active), Err(Error::InvalidParameter));
        assert_eq!(obj.stream_mark_eom(&mut rec), Err(Error::InvalidParameter));
        assert_eq!(obj.stream_close(&mut rec, true), Err(Error::InvalidParameter));
        assert_eq!(obj.stream_read(&mut rec, &mut buf), Err(Error::InvalidParameter));
        assert_eq!(buf, [0u8; 4]);
        assert_eq!(obj.stream_has_vacancy(&mut rec), Err(Error::InvalidParameter));
        assert_eq!(obj.stream_seek_msg_start(&mut rec), Err(Error::InvalidParameter));
    }
    let writes = rec
        .log()
        .iter()
        .filter(|c| !matches!(c, Call::ObjectGetType { .. }))
        .count();
    assert_eq!(writes, 0);
}

#[test]
fn stream_operations_on_a_stream() {
    let mut rec = Recorder::new();
    let h = rec.add_object(NORM_OBJECT_STREAM, None, vec![10, 20, 30, 40, 50], 0);
    let obj = Object::from_handle_unowned(h);
    assert_eq!(obj.stream_write(&mut rec, b"abc"), Ok(3));
    assert_eq!(obj.stream_flush(&mut rec, false, FlushMode::Passive), Ok(()));
    assert_eq!(obj.stream_mark_eom(&mut rec), Ok(()));
    assert_eq!(obj.stream_has_vacancy(&mut rec), Ok(true));
    assert_eq!(obj.stream_seek_msg_start(&mut rec), Ok(true));
    let mut buf = [0u8; 3];
    assert_eq!(obj.stream_read(&mut rec, &mut buf), Ok(3));
    assert_eq!(buf, [10, 20, 30]);
    let mut big = [9u8; 4];
    assert_eq!(obj.stream_read(&mut rec, &mut big), Ok(2));
    assert_eq!(big, [40, 50, 9, 9]);
    assert_eq!(obj.stream_close(&mut rec, true), Ok(()));
    assert!(rec
        .log()
        .iter()
        .any(|c| matches!(c, Call::StreamFlush { eom: false, mode: 1, .. })));
}

#[test]
fn get_sender_is_borrowed_or_invalid() {
    let mut rec = Recorder::new();
    let h = rec.add_object(NORM_OBJECT_DATA, None, Vec::new(), 77);
    let sender = Object::from_handle_unowned(h).get_sender(&mut rec).unwrap();
    assert_eq!(sender.handle(), 77);
    assert!(!sender.is_owned());
    let orphan = rec.add_object(NORM_OBJECT_DATA, None, Vec::new(), NORM_NODE_INVALID);
    assert!(matches!(
        Object::from_handle_unowned(orphan).get_sender(&mut rec),
        Err(Error::InvalidHandle)
    ));
}

#[test]
fn size_and_cancel() {
    let mut rec = Recorder::new();
    let h = rec.add_object(NORM_OBJECT_DATA, None, vec![0; 12], 0);
    let obj = Object::from_handle_unowned(h);
    assert_eq!(obj.size(&mut rec), 12);
    assert_eq!(obj.bytes_pending(&mut rec), 0);
    obj.cancel(&mut rec);
    assert_eq!(rec.log().last(), Some(&Call::ObjectCancel { object: h }));
}

#[test]
fn data_enqueue_on_stopped_sender_fails() {
    let mut rec = Recorder::new();
    let inst = Instance::new(&mut rec, false).unwrap();
    let session = inst.create_session(&mut rec, "224.1.2.3", 6003, 1).unwrap();
    let r = session.data_enqueue(&mut rec, b"hello", Some(b"info"));
    assert!(matches!(r, Err(Error::OperationFailed(_))));
    assert!(matches!(
        rec.log().last(),
        Some(Call::DataEnqueue { result: 0, info: Some(i), .. }) if i == b"info"
    ));
}

#[test]
fn enqueue_kinds_and_errors() {
    let mut rec = Recorder::new();
    let session = started_session(&mut rec);
    let file = session.file_enqueue(&mut rec, "/tmp/a.bin", Some(b"a.bin")).unwrap();
    assert_eq!(file.get_type(&mut rec), ObjectType::File);
    let stream = session.stream_open(&mut rec, 4096, None).unwrap();
    assert_eq!(stream.get_type(&mut rec), ObjectType::Stream);
    assert!(stream.is_owned());
    assert_eq!(session.file_enqueue(&mut rec, "bad\0path", None).err(), Some(Error::InvalidString));
    session.stop_sender(&mut rec);
    assert!(matches!(session.file_enqueue(&mut rec, "/tmp/b", None), Err(Error::FileError(_))));
    assert!(matches!(session.stream_open(&mut rec, 4096, None), Err(Error::OperationFailed(_))));
    assert!(matches!(rec.log().last(), Some(Call::StreamOpen { info: None, .. })));
}

#[test]
fn info_none_differs_from_empty() {
    let mut rec = Recorder::new();
    let session = started_session(&mut rec);
    let a = session.data_enqueue(&mut rec, b"x", None).unwrap();
    let b = session.data_enqueue(&mut rec, b"x", Some(b"")).unwrap();
    assert!(!a.has_info(&mut rec));
    assert!(b.has_info(&mut rec));
}

#[test]
fn session_requests_report_refusals() {
    let mut rec = Recorder::new();
    let session = started_session(&mut rec);
    assert!(session.set_ttl(&mut rec, 8).is_ok());
    assert!(session.set_tos(&mut rec, 8).is_ok());
    assert!(session.set_loopback(&mut rec, true).is_ok());
    assert!(session.set_tx_socket_buffer(&mut rec, 1 << 16).is_ok());
    assert!(session.set_rx_socket_buffer(&mut rec, 1 << 16).is_ok());
    assert!(session.start_receiver(&mut rec, 1 << 20).is_ok());
    session.set_congestion_control(&mut rec, true, false).stop_receiver(&mut rec);
    rec.set_accept(false);
    assert!(matches!(session.set_ttl(&mut rec, 8), Err(Error::OperationFailed(_))));
    assert!(matches!(session.set_multicast_interface(&mut rec, "eth0"), Err(Error::OperationFailed(_))));
    assert!(matches!(session.set_ssm(&mut rec, "10.0.0.1"), Err(Error::OperationFailed(_))));
    assert!(matches!(session.reset_watermark(&mut rec), Err(Error::OperationFailed(_))));
    assert!(matches!(session.send_command(&mut rec, b"cmd", true), Err(Error::OperationFailed(_))));
    let obj = Object::from_handle_unowned(3);
    assert!(matches!(session.set_watermark(&mut rec, &obj, false), Err(Error::OperationFailed(_))));
    assert!(matches!(session.start_sender(&mut rec, 1, 10, 1400, 64, 16, None), Err(Error::OperationFailed(_))));
    session.cancel_watermark(&mut rec);
    session.cancel_command(&mut rec);
    assert!(matches!(session.set_ssm(&mut rec, "1\0"), Err(Error::InvalidString)));
    let h = session.handle();
    session.destroy(&mut rec);
    assert_eq!(rec.log().last(), Some(&Call::DestroySession { session: h }));
}

#[test]
fn unicast_classification_is_forwarded() {
    let mut rec = Recorder::new();
    assert!(Session::is_unicast_address(&mut rec, "10.0.0.1"));
    rec.set_accept(false);
    assert!(!Session::is_unicast_address(&mut rec, "224.1.2.3"));
    let before = rec.log().len();
    assert!(!Session::is_unicast_address(&mut rec, "10.0.\00.1"));
    assert_eq!(rec.log().len(), before);
}
