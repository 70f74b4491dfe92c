use norm::types::{
    NORM_ACK_FAILURE, NORM_ACK_PENDING, NORM_ACK_SUCCESS, NORM_BOUNDARY_OBJECT, NORM_EVENT_MAX,
    NORM_FLUSH_ACTIVE, NORM_FLUSH_NONE, NORM_FLUSH_PASSIVE, NORM_NACK_NONE, NORM_NACK_NORMAL,
    NORM_OBJECT_DATA, NORM_OBJECT_FILE, NORM_OBJECT_STREAM, NORM_RX_OBJECT_COMPLETED,
    NORM_SYNC_ALL, NORM_TRACK_SENDERS, NORM_TX_OBJECT_SENT, NORM_TX_QUEUE_EMPTY,
    NORM_USER_TIMEOUT,
};
use norm::{
    version, AckingStatus, EventType, FlushMode, NackingMode, ObjectType, ProbingMode,
    RepairBoundary, SyncPolicy, TrackingStatus, VERSION_MAJOR, VERSION_MINOR, VERSION_PATCH,
};

#[test]
fn test_version_constants() {
    assert!(VERSION_MAJOR > 0);
}

#[test]
fn version_matches_constants() {
    assert_eq!(version(), (VERSION_MAJOR, VERSION_MINOR, VERSION_PATCH));
}

#[test]
fn test_object_type_conversions() {
    let data_type: ObjectType = NORM_OBJECT_DATA.into();
    assert_eq!(data_type, ObjectType::Data);

    let file_type: ObjectType = NORM_OBJECT_FILE.into();
    assert_eq!(file_type, ObjectType::File);

    let stream_type: ObjectType = NORM_OBJECT_STREAM.into();
    assert_eq!(stream_type, ObjectType::Stream);

    let norm_data: u32 = ObjectType::Data.into();
    assert_eq!(norm_data, NORM_OBJECT_DATA);
}

#[test]
fn test_flush_mode_conversions() {
    assert_eq!(FlushMode::from(NORM_FLUSH_NONE), FlushMode::Off);
    assert_eq!(FlushMode::from(NORM_FLUSH_PASSIVE), FlushMode::Passive);
    assert_eq!(FlushMode::from(NORM_FLUSH_ACTIVE), FlushMode::Active);

    let norm_active: u32 = FlushMode::Active.into();
    assert_eq!(norm_active, NORM_FLUSH_ACTIVE);
}

#[test]
fn test_event_type_conversions() {
    let tx_event: EventType = NORM_TX_QUEUE_EMPTY.into();
    assert_eq!(tx_event, EventType::TxQueueEmpty);

    let rx_event: EventType = NORM_RX_OBJECT_COMPLETED.into();
    assert_eq!(rx_event, EventType::RxObjectCompleted);

    let norm_event: u32 = EventType::TxObjectSent.into();
    assert_eq!(norm_event, NORM_TX_OBJECT_SENT);
}

#[test]
fn test_nacking_mode_conversions() {
    assert_eq!(NackingMode::from(NORM_NACK_NONE), NackingMode::Off);
    assert_eq!(NackingMode::from(NORM_NACK_NORMAL), NackingMode::Normal);
}

#[test]
fn test_acking_status_conversions() {
    assert_eq!(AckingStatus::from(NORM_ACK_SUCCESS), AckingStatus::Success);
    assert_eq!(AckingStatus::from(NORM_ACK_FAILURE), AckingStatus::Failure);
    assert_eq!(AckingStatus::from(NORM_ACK_PENDING), AckingStatus::Pending);
}

#[test]
fn unknown_discriminants_fall_back() {
    assert_eq!(ObjectType::from(99), ObjectType::Unspecified);
    assert_eq!(FlushMode::from(7), FlushMode::Off);
    assert_eq!(AckingStatus::from(12), AckingStatus::Invalid);
    assert_eq!(TrackingStatus::from(4), TrackingStatus::Off);
    assert_eq!(ProbingMode::from(3), ProbingMode::Off);
    assert_eq!(SyncPolicy::from(3), SyncPolicy::Current);
    assert_eq!(RepairBoundary::from(2), RepairBoundary::Block);
}

#[test]
fn other_enums_round_trip() {
    assert_eq!(TrackingStatus::from(NORM_TRACK_SENDERS), TrackingStatus::Senders);
    assert_eq!(SyncPolicy::from(NORM_SYNC_ALL), SyncPolicy::All);
    assert_eq!(RepairBoundary::from(NORM_BOUNDARY_OBJECT), RepairBoundary::Object);
    let raw: u32 = ProbingMode::Active.into();
    assert_eq!(ProbingMode::from(raw), ProbingMode::Active);
}

#[test]
fn every_event_discriminant_maps_to_a_distinct_kind() {
    let mut seen: Vec<EventType> = Vec::new();
    for raw in 0..=NORM_EVENT_MAX {
        let kind = EventType::from(raw);
        assert!(!seen.contains(&kind));
        let back: u32 = kind.into();
        assert_eq!(back, raw);
        seen.push(kind);
    }
    assert_eq!(seen.len(), 29);
    assert_eq!(EventType::from(NORM_USER_TIMEOUT), EventType::UserTimeout);
    assert_eq!(EventType::from(NORM_EVENT_MAX + 1), EventType::Invalid);
    assert_eq!(EventType::from(u32::MAX), EventType::Invalid);
}

#[test]
fn event_type_names() {
    assert_eq!(EventType::TxQueueVacancy.name(), "TxQueueVacancy");
    assert_eq!(EventType::Invalid.to_string(), "Invalid");
    assert_eq!(EventType::UserTimeout.to_string(), "UserTimeout");
}
