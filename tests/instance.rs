use norm::types::{NORM_RX_OBJECT_NEW, NORM_TX_QUEUE_EMPTY};
use norm::{Call, Error, Event, EventType, Instance, RawEvent, Recorder};

fn polls(rec: &Recorder) -> usize {
    rec.log()
        .iter()
        .filter(|c| matches!(c, Call::GetNextEvent { .. }))
        .count()
}

#[test]
fn poll_without_wait_and_nothing_pending_is_none() {
    let mut rec = Recorder::new();
    let inst = Instance::new(&mut rec, false).unwrap();
    assert_eq!(inst.next_event(&mut rec, false), Ok(None));
    assert!(matches!(rec.log().last(), Some(Call::GetNextEvent { wait: false, result: None, .. })));
}

#[test]
fn poll_translates_pending_event() {
    let mut rec = Recorder::new();
    let inst = Instance::new(&mut rec, true).unwrap();
    rec.push_event(RawEvent { kind: NORM_RX_OBJECT_NEW, session: 5, sender: 6, object: 7 });
    let ev = inst.next_event(&mut rec, false).unwrap().unwrap();
    assert_eq!(ev, Event { event_type: EventType::RxObjectNew, session: 5, sender: 6, object: 7 });
}

#[test]
fn unknown_event_kind_is_invalid() {
    let ev = Event::from_raw(RawEvent { kind: 1000, session: 1, sender: 0, object: 0 });
    assert_eq!(ev.event_type, EventType::Invalid);
    assert_eq!(ev.session, 1);
}

#[test]
fn events_end_at_first_empty_poll_and_stop_polling() {
    let mut rec = Recorder::new();
    let inst = Instance::new(&mut rec, false).unwrap();
    rec.push_event(RawEvent { kind: NORM_TX_QUEUE_EMPTY, session: 1, sender: 0, object: 0 });
    rec.push_event(RawEvent { kind: NORM_RX_OBJECT_NEW, session: 1, sender: 2, object: 3 });
    let mut events = inst.events();
    assert_eq!(events.next(&mut rec).map(|e| e.event_type), Some(EventType::TxQueueEmpty));
    assert_eq!(events.next(&mut rec).map(|e| e.event_type), Some(EventType::RxObjectNew));
    assert_eq!(polls(&rec), 2);
    assert_eq!(events.next(&mut rec), None);
    assert_eq!(polls(&rec), 3);
    rec.push_event(RawEvent { kind: NORM_TX_QUEUE_EMPTY, session: 1, sender: 0, object: 0 });
    assert_eq!(events.next(&mut rec), None);
    assert_eq!(events.next(&mut rec), None);
    assert_eq!(polls(&rec), 3);
    assert!(matches!(rec.log().last(), Some(Call::GetNextEvent { wait: true, result: None, .. })));
}

#[test]
fn instance_creation_failure_is_invalid_handle() {
    let mut rec = Recorder::new();
    rec.set_accept(false);
    assert!(matches!(Instance::new(&mut rec, false), Err(Error::InvalidHandle)));
}

#[test]
fn session_creation_errors() {
    let mut rec = Recorder::new();
    let inst = Instance::new(&mut rec, false).unwrap();
    let before = rec.log().len();
    assert!(matches!(inst.create_session(&mut rec, "224.1\0.2.3", 6003, 1), Err(Error::InvalidString)));
    assert_eq!(rec.log().len(), before);
    rec.set_accept(false);
    assert!(matches!(inst.create_session(&mut rec, "224.1.2.3", 6003, 1), Err(Error::InvalidHandle)));
}

#[test]
fn instance_controls() {
    let mut rec = Recorder::new();
    let inst = Instance::new(&mut rec, false).unwrap();
    inst.stop(&mut rec);
    assert_eq!(inst.restart(&mut rec), Ok(()));
    assert_eq!(inst.suspend(&mut rec), Ok(()));
    inst.resume(&mut rec);
    assert_eq!(inst.set_cache_directory(&mut rec, "/tmp/cache"), Ok(()));
    assert_eq!(inst.open_debug_log(&mut rec, "/tmp/norm.log"), Ok(()));
    inst.close_debug_log(&mut rec);
    assert_eq!(inst.descriptor(&mut rec), -1);
    assert_eq!(inst.set_cache_directory(&mut rec, "/tmp/\0"), Err(Error::InvalidString));
    rec.set_accept(false);
    assert!(matches!(inst.restart(&mut rec), Err(Error::OperationFailed(_))));
    assert!(matches!(inst.suspend(&mut rec), Err(Error::OperationFailed(_))));
    assert!(matches!(inst.set_cache_directory(&mut rec, "/x"), Err(Error::OperationFailed(_))));
    let h = inst.handle();
    inst.destroy(&mut rec);
    assert_eq!(rec.log().last(), Some(&Call::DestroyInstance { instance: h }));
}
