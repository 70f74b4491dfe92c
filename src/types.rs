//! Plain enumerations of the engine's interface and their native discriminants.
use vstd::prelude::*;
use vstd::string::StringExecFns;

verus! {

/// Native discriminant of [`ObjectType::Unspecified`].
pub const NORM_OBJECT_NONE: u32 = 0;

/// Native discriminant of [`ObjectType::Data`].
pub const NORM_OBJECT_DATA: u32 = 1;

/// Native discriminant of [`ObjectType::File`].
pub const NORM_OBJECT_FILE: u32 = 2;

/// Native discriminant of [`ObjectType::Stream`].
pub const NORM_OBJECT_STREAM: u32 = 3;

/// Kind of a transport object.
#[derive(Debug, Clone, Copy, PartialEq, Eq, Hash, Structural)]
pub enum ObjectType {
    /// No object kind.
    Unspecified,
    /// A memory buffer.
    Data,
    /// A file.
    File,
    /// A byte stream.
    Stream,
}

impl ObjectType {
    /// The native discriminant of this value.
    pub open spec fn raw(self) -> u32 {
        match self {
            ObjectType::Unspecified => NORM_OBJECT_NONE,
            ObjectType::Data => NORM_OBJECT_DATA,
            ObjectType::File => NORM_OBJECT_FILE,
            ObjectType::Stream => NORM_OBJECT_STREAM,
        }
    }

    /// The value a native discriminant stands for; unknown ones map to
    /// [`ObjectType::Unspecified`].
    pub open spec fn from_raw(raw: u32) -> Self {
        if raw == NORM_OBJECT_NONE {
            ObjectType::Unspecified
        } else if raw == NORM_OBJECT_DATA {
            ObjectType::Data
        } else if raw == NORM_OBJECT_FILE {
            ObjectType::File
        } else if raw == NORM_OBJECT_STREAM {
            ObjectType::Stream
        } else {
            ObjectType::Unspecified
        }
    }
}

impl From<u32> for ObjectType {
    fn from(raw: u32) -> (r: ObjectType) {
        if raw == NORM_OBJECT_NONE {
            ObjectType::Unspecified
        } else if raw == NORM_OBJECT_DATA {
            ObjectType::Data
        } else if raw == NORM_OBJECT_FILE {
            ObjectType::File
        } else if raw == NORM_OBJECT_STREAM {
            ObjectType::Stream
        } else {
            ObjectType::Unspecified
        }
    }
}

impl vstd::std_specs::convert::FromSpecImpl<u32> for ObjectType {
    open spec fn obeys_from_spec() -> bool {
        true
    }

    open spec fn from_spec(raw: u32) -> ObjectType {
        ObjectType::from_raw(raw)
    }
}

impl From<ObjectType> for u32 {
    fn from(v: ObjectType) -> (r: u32) {
        match v {
            ObjectType::Unspecified => NORM_OBJECT_NONE,
            ObjectType::Data => NORM_OBJECT_DATA,
            ObjectType::File => NORM_OBJECT_FILE,
            ObjectType::Stream => NORM_OBJECT_STREAM,
        }
    }
}

impl vstd::std_specs::convert::FromSpecImpl<ObjectType> for u32 {
    open spec fn obeys_from_spec() -> bool {
        true
    }

    open spec fn from_spec(v: ObjectType) -> u32 {
        v.raw()
    }
}

/// Native discriminant of [`FlushMode::Off`].
pub const NORM_FLUSH_NONE: u32 = 0;

/// Native discriminant of [`FlushMode::Passive`].
pub const NORM_FLUSH_PASSIVE: u32 = 1;

/// Native discriminant of [`FlushMode::Active`].
pub const NORM_FLUSH_ACTIVE: u32 = 2;

/// How a stream flush solicits acknowledgment.
#[derive(Debug, Clone, Copy, PartialEq, Eq, Hash, Structural)]
pub enum FlushMode {
    /// No flush.
    Off,
    /// Passive flush, minimal delay.
    Passive,
    /// Active flush, seeking acknowledgment.
    Active,
}

impl FlushMode {
    /// The native discriminant of this value.
    pub open spec fn raw(self) -> u32 {
        match self {
            FlushMode::Off => NORM_FLUSH_NONE,
            FlushMode::Passive => NORM_FLUSH_PASSIVE,
            FlushMode::Active => NORM_FLUSH_ACTIVE,
        }
    }

    /// The value a native discriminant stands for; unknown ones map to
    /// [`FlushMode::Off`].
    pub open spec fn from_raw(raw: u32) -> Self {
        if raw == NORM_FLUSH_NONE {
            FlushMode::Off
        } else if raw == NORM_FLUSH_PASSIVE {
            FlushMode::Passive
        } else if raw == NORM_FLUSH_ACTIVE {
            FlushMode::Active
        } else {
            FlushMode::Off
        }
    }
}

impl From<u32> for FlushMode {
    fn from(raw: u32) -> (r: FlushMode) {
        if raw == NORM_FLUSH_NONE {
            FlushMode::Off
        } else if raw == NORM_FLUSH_PASSIVE {
            FlushMode::Passive
        } else if raw == NORM_FLUSH_ACTIVE {
            FlushMode::Active
        } else {
            FlushMode::Off
        }
    }
}

impl vstd::std_specs::convert::FromSpecImpl<u32> for FlushMode {
    open spec fn obeys_from_spec() -> bool {
        true
    }

    open spec fn from_spec(raw: u32) -> FlushMode {
        FlushMode::from_raw(raw)
    }
}

impl From<FlushMode> for u32 {
    fn from(v: FlushMode) -> (r: u32) {
        match v {
            FlushMode::Off => NORM_FLUSH_NONE,
            FlushMode::Passive => NORM_FLUSH_PASSIVE,
            FlushMode::Active => NORM_FLUSH_ACTIVE,
        }
    }
}

impl vstd::std_specs::convert::FromSpecImpl<FlushMode> for u32 {
    open spec fn obeys_from_spec() -> bool {
        true
    }

    open spec fn from_spec(v: FlushMode) -> u32 {
        v.raw()
    }
}

/// Native discriminant of [`NackingMode::Off`].
pub const NORM_NACK_NONE: u32 = 0;

/// Native discriminant of [`NackingMode::InfoOnly`].
pub const NORM_NACK_INFO_ONLY: u32 = 1;

/// Native discriminant of [`NackingMode::Normal`].
pub const NORM_NACK_NORMAL: u32 = 2;

/// Which repairs a receiver requests.
#[derive(Debug, Clone, Copy, PartialEq, Eq, Hash, Structural)]
pub enum NackingMode {
    /// No NACKs.
    Off,
    /// NACKs for object info only.
    InfoOnly,
    /// Normal NACKs.
    Normal,
}

impl NackingMode {
    /// The native discriminant of this value.
    pub open spec fn raw(self) -> u32 {
        match self {
            NackingMode::Off => NORM_NACK_NONE,
            NackingMode::InfoOnly => NORM_NACK_INFO_ONLY,
            NackingMode::Normal => NORM_NACK_NORMAL,
        }
    }

    /// The value a native discriminant stands for; unknown ones map to
    /// [`NackingMode::Off`].
    pub open spec fn from_raw(raw: u32) -> Self {
        if raw == NORM_NACK_NONE {
            NackingMode::Off
        } else if raw == NORM_NACK_INFO_ONLY {
            NackingMode::InfoOnly
        } else if raw == NORM_NACK_NORMAL {
            NackingMode::Normal
        } else {
            NackingMode::Off
        }
    }
}

impl From<u32> for NackingMode {
    fn from(raw: u32) -> (r: NackingMode) {
        if raw == NORM_NACK_NONE {
            NackingMode::Off
        } else if raw == NORM_NACK_INFO_ONLY {
            NackingMode::InfoOnly
        } else if raw == NORM_NACK_NORMAL {
            NackingMode::Normal
        } else {
            NackingMode::Off
        }
    }
}

impl vstd::std_specs::convert::FromSpecImpl<u32> for NackingMode {
    open spec fn obeys_from_spec() -> bool {
        true
    }

    open spec fn from_spec(raw: u32) -> NackingMode {
        NackingMode::from_raw(raw)
    }
}

impl From<NackingMode> for u32 {
    fn from(v: NackingMode) -> (r: u32) {
        match v {
            NackingMode::Off => NORM_NACK_NONE,
            NackingMode::InfoOnly => NORM_NACK_INFO_ONLY,
            NackingMode::Normal => NORM_NACK_NORMAL,
        }
    }
}

impl vstd::std_specs::convert::FromSpecImpl<NackingMode> for u32 {
    open spec fn obeys_from_spec() -> bool {
        true
    }

    open spec fn from_spec(v: NackingMode) -> u32 {
        v.raw()
    }
}

/// Native discriminant of [`AckingStatus::Invalid`].
pub const NORM_ACK_INVALID: u32 = 0;

/// Native discriminant of [`AckingStatus::Failure`].
pub const NORM_ACK_FAILURE: u32 = 1;

/// Native discriminant of [`AckingStatus::Pending`].
pub const NORM_ACK_PENDING: u32 = 2;

/// Native discriminant of [`AckingStatus::Success`].
pub const NORM_ACK_SUCCESS: u32 = 3;

/// Outcome of a watermark acknowledgment.
#[derive(Debug, Clone, Copy, PartialEq, Eq, Hash, Structural)]
pub enum AckingStatus {
    /// No valid status.
    Invalid,
    /// Acknowledgment failed.
    Failure,
    /// Acknowledgment pending.
    Pending,
    /// Acknowledgment succeeded.
    Success,
}

impl AckingStatus {
    /// The native discriminant of this value.
    pub open spec fn raw(self) -> u32 {
        match self {
            AckingStatus::Invalid => NORM_ACK_INVALID,
            AckingStatus::Failure => NORM_ACK_FAILURE,
            AckingStatus::Pending => NORM_ACK_PENDING,
            AckingStatus::Success => NORM_ACK_SUCCESS,
        }
    }

    /// The value a native discriminant stands for; unknown ones map to
    /// [`AckingStatus::Invalid`].
    pub open spec fn from_raw(raw: u32) -> Self {
        if raw == NORM_ACK_INVALID {
            AckingStatus::Invalid
        } else if raw == NORM_ACK_FAILURE {
            AckingStatus::Failure
        } else if raw == NORM_ACK_PENDING {
            AckingStatus::Pending
        } else if raw == NORM_ACK_SUCCESS {
            AckingStatus::Success
        } else {
            AckingStatus::Invalid
        }
    }
}

impl From<u32> for AckingStatus {
    fn from(raw: u32) -> (r: AckingStatus) {
        if raw == NORM_ACK_INVALID {
            AckingStatus::Invalid
        } else if raw == NORM_ACK_FAILURE {
            AckingStatus::Failure
        } else if raw == NORM_ACK_PENDING {
            AckingStatus::Pending
        } else if raw == NORM_ACK_SUCCESS {
            AckingStatus::Success
        } else {
            AckingStatus::Invalid
        }
    }
}

impl vstd::std_specs::convert::FromSpecImpl<u32> for AckingStatus {
    open spec fn obeys_from_spec() -> bool {
        true
    }

    open spec fn from_spec(raw: u32) -> AckingStatus {
        AckingStatus::from_raw(raw)
    }
}

impl From<AckingStatus> for u32 {
    fn from(v: AckingStatus) -> (r: u32) {
        match v {
            AckingStatus::Invalid => NORM_ACK_INVALID,
            AckingStatus::Failure => NORM_ACK_FAILURE,
            AckingStatus::Pending => NORM_ACK_PENDING,
            AckingStatus::Success => NORM_ACK_SUCCESS,
        }
    }
}

impl vstd::std_specs::convert::FromSpecImpl<AckingStatus> for u32 {
    open spec fn obeys_from_spec() -> bool {
        true
    }

    open spec fn from_spec(v: AckingStatus) -> u32 {
        v.raw()
    }
}

/// Native discriminant of [`TrackingStatus::Off`].
pub const NORM_TRACK_NONE: u32 = 0;

/// Native discriminant of [`TrackingStatus::Receivers`].
pub const NORM_TRACK_RECEIVERS: u32 = 1;

/// Native discriminant of [`TrackingStatus::Senders`].
pub const NORM_TRACK_SENDERS: u32 = 2;

/// Native discriminant of [`TrackingStatus::All`].
pub const NORM_TRACK_ALL: u32 = 3;

/// Which remote nodes are tracked.
#[derive(Debug, Clone, Copy, PartialEq, Eq, Hash, Structural)]
pub enum TrackingStatus {
    /// No tracking.
    Off,
    /// Track receivers.
    Receivers,
    /// Track senders.
    Senders,
    /// Track everyone.
    All,
}

impl TrackingStatus {
    /// The native discriminant of this value.
    pub open spec fn raw(self) -> u32 {
        match self {
            TrackingStatus::Off => NORM_TRACK_NONE,
            TrackingStatus::Receivers => NORM_TRACK_RECEIVERS,
            TrackingStatus::Senders => NORM_TRACK_SENDERS,
            TrackingStatus::All => NORM_TRACK_ALL,
        }
    }

    /// The value a native discriminant stands for; unknown ones map to
    /// [`TrackingStatus::Off`].
    pub open spec fn from_raw(raw: u32) -> Self {
        if raw == NORM_TRACK_NONE {
            TrackingStatus::Off
        } else if raw == NORM_TRACK_RECEIVERS {
            TrackingStatus::Receivers
        } else if raw == NORM_TRACK_SENDERS {
            TrackingStatus::Senders
        } else if raw == NORM_TRACK_ALL {
            TrackingStatus::All
        } else {
            TrackingStatus::Off
        }
    }
}

impl From<u32> for TrackingStatus {
    fn from(raw: u32) -> (r: TrackingStatus) {
        if raw == NORM_TRACK_NONE {
            TrackingStatus::Off
        } else if raw == NORM_TRACK_RECEIVERS {
            TrackingStatus::Receivers
        } else if raw == NORM_TRACK_SENDERS {
            TrackingStatus::Senders
        } else if raw == NORM_TRACK_ALL {
            TrackingStatus::All
        } else {
            TrackingStatus::Off
        }
    }
}

impl vstd::std_specs::convert::FromSpecImpl<u32> for TrackingStatus {
    open spec fn obeys_from_spec() -> bool {
        true
    }

    open spec fn from_spec(raw: u32) -> TrackingStatus {
        TrackingStatus::from_raw(raw)
    }
}

impl From<TrackingStatus> for u32 {
    fn from(v: TrackingStatus) -> (r: u32) {
        match v {
            TrackingStatus::Off => NORM_TRACK_NONE,
            TrackingStatus::Receivers => NORM_TRACK_RECEIVERS,
            TrackingStatus::Senders => NORM_TRACK_SENDERS,
            TrackingStatus::All => NORM_TRACK_ALL,
        }
    }
}

impl vstd::std_specs::convert::FromSpecImpl<TrackingStatus> for u32 {
    open spec fn obeys_from_spec() -> bool {
        true
    }

    open spec fn from_spec(v: TrackingStatus) -> u32 {
        v.raw()
    }
}

/// Native discriminant of [`ProbingMode::Off`].
pub const NORM_PROBE_NONE: u32 = 0;

/// Native discriminant of [`ProbingMode::Passive`].
pub const NORM_PROBE_PASSIVE: u32 = 1;

/// Native discriminant of [`ProbingMode::Active`].
pub const NORM_PROBE_ACTIVE: u32 = 2;

/// How a sender probes round-trip time.
#[derive(Debug, Clone, Copy, PartialEq, Eq, Hash, Structural)]
pub enum ProbingMode {
    /// No probing.
    Off,
    /// Passive probing.
    Passive,
    /// Active probing.
    Active,
}

impl ProbingMode {
    /// The native discriminant of this value.
    pub open spec fn raw(self) -> u32 {
        match self {
            ProbingMode::Off => NORM_PROBE_NONE,
            ProbingMode::Passive => NORM_PROBE_PASSIVE,
            ProbingMode::Active => NORM_PROBE_ACTIVE,
        }
    }

    /// The value a native discriminant stands for; unknown ones map to
    /// [`ProbingMode::Off`].
    pub open spec fn from_raw(raw: u32) -> Self {
        if raw == NORM_PROBE_NONE {
            ProbingMode::Off
        } else if raw == NORM_PROBE_PASSIVE {
            ProbingMode::Passive
        } else if raw == NORM_PROBE_ACTIVE {
            ProbingMode::Active
        } else {
            ProbingMode::Off
        }
    }
}

impl From<u32> for ProbingMode {
    fn from(raw: u32) -> (r: ProbingMode) {
        if raw == NORM_PROBE_NONE {
            ProbingMode::Off
        } else if raw == NORM_PROBE_PASSIVE {
            ProbingMode::Passive
        } else if raw == NORM_PROBE_ACTIVE {
            ProbingMode::Active
        } else {
            ProbingMode::Off
        }
    }
}

impl vstd::std_specs::convert::FromSpecImpl<u32> for ProbingMode {
    open spec fn obeys_from_spec() -> bool {
        true
    }

    open spec fn from_spec(raw: u32) -> ProbingMode {
        ProbingMode::from_raw(raw)
    }
}

impl From<ProbingMode> for u32 {
    fn from(v: ProbingMode) -> (r: u32) {
        match v {
            ProbingMode::Off => NORM_PROBE_NONE,
            ProbingMode::Passive => NORM_PROBE_PASSIVE,
            ProbingMode::Active => NORM_PROBE_ACTIVE,
        }
    }
}

impl vstd::std_specs::convert::FromSpecImpl<ProbingMode> for u32 {
    open spec fn obeys_from_spec() -> bool {
        true
    }

    open spec fn from_spec(v: ProbingMode) -> u32 {
        v.raw()
    }
}

/// Native discriminant of [`SyncPolicy::Current`].
pub const NORM_SYNC_CURRENT: u32 = 0;

/// Native discriminant of [`SyncPolicy::Stream`].
pub const NORM_SYNC_STREAM: u32 = 1;

/// Native discriminant of [`SyncPolicy::All`].
pub const NORM_SYNC_ALL: u32 = 2;

/// Where a receiver joins a sender's transmission.
#[derive(Debug, Clone, Copy, PartialEq, Eq, Hash, Structural)]
pub enum SyncPolicy {
    /// Join at current data.
    Current,
    /// Join at the start of a stream.
    Stream,
    /// Take all data, old and new.
    All,
}

impl SyncPolicy {
    /// The native discriminant of this value.
    pub open spec fn raw(self) -> u32 {
        match self {
            SyncPolicy::Current => NORM_SYNC_CURRENT,
            SyncPolicy::Stream => NORM_SYNC_STREAM,
            SyncPolicy::All => NORM_SYNC_ALL,
        }
    }

    /// The value a native discriminant stands for; unknown ones map to
    /// [`SyncPolicy::Current`].
    pub open spec fn from_raw(raw: u32) -> Self {
        if raw == NORM_SYNC_CURRENT {
            SyncPolicy::Current
        } else if raw == NORM_SYNC_STREAM {
            SyncPolicy::Stream
        } else if raw == NORM_SYNC_ALL {
            SyncPolicy::All
        } else {
            SyncPolicy::Current
        }
    }
}

impl From<u32> for SyncPolicy {
    fn from(raw: u32) -> (r: SyncPolicy) {
        if raw == NORM_SYNC_CURRENT {
            SyncPolicy::Current
        } else if raw == NORM_SYNC_STREAM {
            SyncPolicy::Stream
        } else if raw == NORM_SYNC_ALL {
            SyncPolicy::All
        } else {
            SyncPolicy::Current
        }
    }
}

impl vstd::std_specs::convert::FromSpecImpl<u32> for SyncPolicy {
    open spec fn obeys_from_spec() -> bool {
        true
    }

    open spec fn from_spec(raw: u32) -> SyncPolicy {
        SyncPolicy::from_raw(raw)
    }
}

impl From<SyncPolicy> for u32 {
    fn from(v: SyncPolicy) -> (r: u32) {
        match v {
            SyncPolicy::Current => NORM_SYNC_CURRENT,
            SyncPolicy::Stream => NORM_SYNC_STREAM,
            SyncPolicy::All => NORM_SYNC_ALL,
        }
    }
}

impl vstd::std_specs::convert::FromSpecImpl<SyncPolicy> for u32 {
    open spec fn obeys_from_spec() -> bool {
        true
    }

    open spec fn from_spec(v: SyncPolicy) -> u32 {
        v.raw()
    }
}

/// Native discriminant of [`RepairBoundary::Block`].
pub const NORM_BOUNDARY_BLOCK: u32 = 0;

/// Native discriminant of [`RepairBoundary::Object`].
pub const NORM_BOUNDARY_OBJECT: u32 = 1;

/// Granularity of receiver repair requests.
#[derive(Debug, Clone, Copy, PartialEq, Eq, Hash, Structural)]
pub enum RepairBoundary {
    /// Repair per block.
    Block,
    /// Repair per object.
    Object,
}

impl RepairBoundary {
    /// The native discriminant of this value.
    pub open spec fn raw(self) -> u32 {
        match self {
            RepairBoundary::Block => NORM_BOUNDARY_BLOCK,
            RepairBoundary::Object => NORM_BOUNDARY_OBJECT,
        }
    }

    /// The value a native discriminant stands for; unknown ones map to
    /// [`RepairBoundary::Block`].
    pub open spec fn from_raw(raw: u32) -> Self {
        if raw == NORM_BOUNDARY_BLOCK {
            RepairBoundary::Block
        } else if raw == NORM_BOUNDARY_OBJECT {
            RepairBoundary::Object
        } else {
            RepairBoundary::Block
        }
    }
}

impl From<u32> for RepairBoundary {
    fn from(raw: u32) -> (r: RepairBoundary) {
        if raw == NORM_BOUNDARY_BLOCK {
            RepairBoundary::Block
        } else if raw == NORM_BOUNDARY_OBJECT {
            RepairBoundary::Object
        } else {
            RepairBoundary::Block
        }
    }
}

impl vstd::std_specs::convert::FromSpecImpl<u32> for RepairBoundary {
    open spec fn obeys_from_spec() -> bool {
        true
    }

    open spec fn from_spec(raw: u32) -> RepairBoundary {
        RepairBoundary::from_raw(raw)
    }
}

impl From<RepairBoundary> for u32 {
    fn from(v: RepairBoundary) -> (r: u32) {
        match v {
            RepairBoundary::Block => NORM_BOUNDARY_BLOCK,
            RepairBoundary::Object => NORM_BOUNDARY_OBJECT,
        }
    }
}

impl vstd::std_specs::convert::FromSpecImpl<RepairBoundary> for u32 {
    open spec fn obeys_from_spec() -> bool {
        true
    }

    open spec fn from_spec(v: RepairBoundary) -> u32 {
        v.raw()
    }
}

/// Native discriminant of [`EventType::Invalid`].
pub const NORM_EVENT_INVALID: u32 = 0;

/// Native discriminant of [`EventType::TxQueueVacancy`].
pub const NORM_TX_QUEUE_VACANCY: u32 = 1;

/// Native discriminant of [`EventType::TxQueueEmpty`].
pub const NORM_TX_QUEUE_EMPTY: u32 = 2;

/// Native discriminant of [`EventType::TxFlushCompleted`].
pub const NORM_TX_FLUSH_COMPLETED: u32 = 3;

/// Native discriminant of [`EventType::TxWatermarkCompleted`].
pub const NORM_TX_WATERMARK_COMPLETED: u32 = 4;

/// Native discriminant of [`EventType::TxCmdSent`].
pub const NORM_TX_CMD_SENT: u32 = 5;

/// Native discriminant of [`EventType::TxObjectSent`].
pub const NORM_TX_OBJECT_SENT: u32 = 6;

/// Native discriminant of [`EventType::TxObjectPurged`].
pub const NORM_TX_OBJECT_PURGED: u32 = 7;

/// Native discriminant of [`EventType::TxRateChanged`].
pub const NORM_TX_RATE_CHANGED: u32 = 8;

/// Native discriminant of [`EventType::LocalSenderClosed`].
pub const NORM_LOCAL_SENDER_CLOSED: u32 = 9;

/// Native discriminant of [`EventType::RemoteSenderNew`].
pub const NORM_REMOTE_SENDER_NEW: u32 = 10;

/// Native discriminant of [`EventType::RemoteSenderReset`].
pub const NORM_REMOTE_SENDER_RESET: u32 = 11;

/// Native discriminant of [`EventType::RemoteSenderAddress`].
pub const NORM_REMOTE_SENDER_ADDRESS: u32 = 12;

/// Native discriminant of [`EventType::RemoteSenderActive`].
pub const NORM_REMOTE_SENDER_ACTIVE: u32 = 13;

/// Native discriminant of [`EventType::RemoteSenderInactive`].
pub const NORM_REMOTE_SENDER_INACTIVE: u32 = 14;

/// Native discriminant of [`EventType::RemoteSenderPurged`].
pub const NORM_REMOTE_SENDER_PURGED: u32 = 15;

/// Native discriminant of [`EventType::RxCmdNew`].
pub const NORM_RX_CMD_NEW: u32 = 16;

/// Native discriminant of [`EventType::RxObjectNew`].
pub const NORM_RX_OBJECT_NEW: u32 = 17;

/// Native discriminant of [`EventType::RxObjectInfo`].
pub const NORM_RX_OBJECT_INFO: u32 = 18;

/// Native discriminant of [`EventType::RxObjectUpdated`].
pub const NORM_RX_OBJECT_UPDATED: u32 = 19;

/// Native discriminant of [`EventType::RxObjectCompleted`].
pub const NORM_RX_OBJECT_COMPLETED: u32 = 20;

/// Native discriminant of [`EventType::RxObjectAborted`].
pub const NORM_RX_OBJECT_ABORTED: u32 = 21;

/// Native discriminant of [`EventType::RxAckRequest`].
pub const NORM_RX_ACK_REQUEST: u32 = 22;

/// Native discriminant of [`EventType::GrttUpdated`].
pub const NORM_GRTT_UPDATED: u32 = 23;

/// Native discriminant of [`EventType::CcActive`].
pub const NORM_CC_ACTIVE: u32 = 24;

/// Native discriminant of [`EventType::CcInactive`].
pub const NORM_CC_INACTIVE: u32 = 25;

/// Native discriminant of [`EventType::AckingNodeNew`].
pub const NORM_ACKING_NODE_NEW: u32 = 26;

/// Native discriminant of [`EventType::SendError`].
pub const NORM_SEND_ERROR: u32 = 27;

/// Native discriminant of [`EventType::UserTimeout`].
pub const NORM_USER_TIMEOUT: u32 = 28;

/// Largest native event discriminant the library knows.
pub const NORM_EVENT_MAX: u32 = 28;

/// Kind of an engine event.
#[derive(Debug, Clone, Copy, PartialEq, Eq, Hash, Structural)]
pub enum EventType {
    /// No valid event.
    Invalid,
    /// The transmit queue has room again.
    TxQueueVacancy,
    /// The transmit queue drained.
    TxQueueEmpty,
    /// A flush finished.
    TxFlushCompleted,
    /// A watermark acknowledgment finished.
    TxWatermarkCompleted,
    /// A command was sent.
    TxCmdSent,
    /// An object was sent.
    TxObjectSent,
    /// An object left the transmit cache.
    TxObjectPurged,
    /// The transmit rate changed.
    TxRateChanged,
    /// The local sender closed.
    LocalSenderClosed,
    /// A new remote sender appeared.
    RemoteSenderNew,
    /// A remote sender reset.
    RemoteSenderReset,
    /// A remote sender's address changed.
    RemoteSenderAddress,
    /// A remote sender became active.
    RemoteSenderActive,
    /// A remote sender became inactive.
    RemoteSenderInactive,
    /// A remote sender's state was purged.
    RemoteSenderPurged,
    /// A command arrived.
    RxCmdNew,
    /// A new object is being received.
    RxObjectNew,
    /// A received object's info arrived.
    RxObjectInfo,
    /// A received object got more data.
    RxObjectUpdated,
    /// An object was received completely.
    RxObjectCompleted,
    /// Receiving an object was aborted.
    RxObjectAborted,
    /// A sender requested acknowledgment.
    RxAckRequest,
    /// The group round-trip estimate changed.
    GrttUpdated,
    /// Congestion control became active.
    CcActive,
    /// Congestion control became inactive.
    CcInactive,
    /// A new acking node appeared.
    AckingNodeNew,
    /// Sending failed.
    SendError,
    /// A user timer fired.
    UserTimeout,
}

impl EventType {
    /// The native discriminant of this kind.
    pub open spec fn raw(self) -> u32 {
        match self {
            EventType::Invalid => NORM_EVENT_INVALID,
            EventType::TxQueueVacancy => NORM_TX_QUEUE_VACANCY,
            EventType::TxQueueEmpty => NORM_TX_QUEUE_EMPTY,
            EventType::TxFlushCompleted => NORM_TX_FLUSH_COMPLETED,
            EventType::TxWatermarkCompleted => NORM_TX_WATERMARK_COMPLETED,
            EventType::TxCmdSent => NORM_TX_CMD_SENT,
            EventType::TxObjectSent => NORM_TX_OBJECT_SENT,
            EventType::TxObjectPurged => NORM_TX_OBJECT_PURGED,
            EventType::TxRateChanged => NORM_TX_RATE_CHANGED,
            EventType::LocalSenderClosed => NORM_LOCAL_SENDER_CLOSED,
            EventType::RemoteSenderNew => NORM_REMOTE_SENDER_NEW,
            EventType::RemoteSenderReset => NORM_REMOTE_SENDER_RESET,
            EventType::RemoteSenderAddress => NORM_REMOTE_SENDER_ADDRESS,
            EventType::RemoteSenderActive => NORM_REMOTE_SENDER_ACTIVE,
            EventType::RemoteSenderInactive => NORM_REMOTE_SENDER_INACTIVE,
            EventType::RemoteSenderPurged => NORM_REMOTE_SENDER_PURGED,
            EventType::RxCmdNew => NORM_RX_CMD_NEW,
            EventType::RxObjectNew => NORM_RX_OBJECT_NEW,
            EventType::RxObjectInfo => NORM_RX_OBJECT_INFO,
            EventType::RxObjectUpdated => NORM_RX_OBJECT_UPDATED,
            EventType::RxObjectCompleted => NORM_RX_OBJECT_COMPLETED,
            EventType::RxObjectAborted => NORM_RX_OBJECT_ABORTED,
            EventType::RxAckRequest => NORM_RX_ACK_REQUEST,
            EventType::GrttUpdated => NORM_GRTT_UPDATED,
            EventType::CcActive => NORM_CC_ACTIVE,
            EventType::CcInactive => NORM_CC_INACTIVE,
            EventType::AckingNodeNew => NORM_ACKING_NODE_NEW,
            EventType::SendError => NORM_SEND_ERROR,
            EventType::UserTimeout => NORM_USER_TIMEOUT,
        }
    }

    /// The kind a native discriminant stands for; unknown ones map to
    /// [`EventType::Invalid`].
    pub open spec fn from_raw(raw: u32) -> Self {
        match raw {
            0 => EventType::Invalid,
            1 => EventType::TxQueueVacancy,
            2 => EventType::TxQueueEmpty,
            3 => EventType::TxFlushCompleted,
            4 => EventType::TxWatermarkCompleted,
            5 => EventType::TxCmdSent,
            6 => EventType::TxObjectSent,
            7 => EventType::TxObjectPurged,
            8 => EventType::TxRateChanged,
            9 => EventType::LocalSenderClosed,
            10 => EventType::RemoteSenderNew,
            11 => EventType::RemoteSenderReset,
            12 => EventType::RemoteSenderAddress,
            13 => EventType::RemoteSenderActive,
            14 => EventType::RemoteSenderInactive,
            15 => EventType::RemoteSenderPurged,
            16 => EventType::RxCmdNew,
            17 => EventType::RxObjectNew,
            18 => EventType::RxObjectInfo,
            19 => EventType::RxObjectUpdated,
            20 => EventType::RxObjectCompleted,
            21 => EventType::RxObjectAborted,
            22 => EventType::RxAckRequest,
            23 => EventType::GrttUpdated,
            24 => EventType::CcActive,
            25 => EventType::CcInactive,
            26 => EventType::AckingNodeNew,
            27 => EventType::SendError,
            28 => EventType::UserTimeout,
            _ => EventType::Invalid,
        }
    }

    /// The kind's name.
    pub open spec fn spec_name(self) -> Seq<char> {
        match self {
            EventType::Invalid => "Invalid"@,
            EventType::TxQueueVacancy => "TxQueueVacancy"@,
            EventType::TxQueueEmpty => "TxQueueEmpty"@,
            EventType::TxFlushCompleted => "TxFlushCompleted"@,
            EventType::TxWatermarkCompleted => "TxWatermarkCompleted"@,
            EventType::TxCmdSent => "TxCmdSent"@,
            EventType::TxObjectSent => "TxObjectSent"@,
            EventType::TxObjectPurged => "TxObjectPurged"@,
            EventType::TxRateChanged => "TxRateChanged"@,
            EventType::LocalSenderClosed => "LocalSenderClosed"@,
            EventType::RemoteSenderNew => "RemoteSenderNew"@,
            EventType::RemoteSenderReset => "RemoteSenderReset"@,
            EventType::RemoteSenderAddress => "RemoteSenderAddress"@,
            EventType::RemoteSenderActive => "RemoteSenderActive"@,
            EventType::RemoteSenderInactive => "RemoteSenderInactive"@,
            EventType::RemoteSenderPurged => "RemoteSenderPurged"@,
            EventType::RxCmdNew => "RxCmdNew"@,
            EventType::RxObjectNew => "RxObjectNew"@,
            EventType::RxObjectInfo => "RxObjectInfo"@,
            EventType::RxObjectUpdated => "RxObjectUpdated"@,
            EventType::RxObjectCompleted => "RxObjectCompleted"@,
            EventType::RxObjectAborted => "RxObjectAborted"@,
            EventType::RxAckRequest => "RxAckRequest"@,
            EventType::GrttUpdated => "GrttUpdated"@,
            EventType::CcActive => "CcActive"@,
            EventType::CcInactive => "CcInactive"@,
            EventType::AckingNodeNew => "AckingNodeNew"@,
            EventType::SendError => "SendError"@,
            EventType::UserTimeout => "UserTimeout"@,
        }
    }

    /// The kind's name, as the variant is spelled.
    pub fn name(&self) -> (r: &'static str)
        ensures
            r@ == self.spec_name(),
    {
        match self {
            EventType::Invalid => "Invalid",
            EventType::TxQueueVacancy => "TxQueueVacancy",
            EventType::TxQueueEmpty => "TxQueueEmpty",
            EventType::TxFlushCompleted => "TxFlushCompleted",
            EventType::TxWatermarkCompleted => "TxWatermarkCompleted",
            EventType::TxCmdSent => "TxCmdSent",
            EventType::TxObjectSent => "TxObjectSent",
            EventType::TxObjectPurged => "TxObjectPurged",
            EventType::TxRateChanged => "TxRateChanged",
            EventType::LocalSenderClosed => "LocalSenderClosed",
            EventType::RemoteSenderNew => "RemoteSenderNew",
            EventType::RemoteSenderReset => "RemoteSenderReset",
            EventType::RemoteSenderAddress => "RemoteSenderAddress",
            EventType::RemoteSenderActive => "RemoteSenderActive",
            EventType::RemoteSenderInactive => "RemoteSenderInactive",
            EventType::RemoteSenderPurged => "RemoteSenderPurged",
            EventType::RxCmdNew => "RxCmdNew",
            EventType::RxObjectNew => "RxObjectNew",
            EventType::RxObjectInfo => "RxObjectInfo",
            EventType::RxObjectUpdated => "RxObjectUpdated",
            EventType::RxObjectCompleted => "RxObjectCompleted",
            EventType::RxObjectAborted => "RxObjectAborted",
            EventType::RxAckRequest => "RxAckRequest",
            EventType::GrttUpdated => "GrttUpdated",
            EventType::CcActive => "CcActive",
            EventType::CcInactive => "CcInactive",
            EventType::AckingNodeNew => "AckingNodeNew",
            EventType::SendError => "SendError",
            EventType::UserTimeout => "UserTimeout",
        }
    }

    /// The kind's name as an owned string.
    pub fn to_string(&self) -> (r: String)
        ensures
            r@ == self.spec_name(),
    {
        String::from_str(self.name())
    }
}

impl From<u32> for EventType {
    fn from(raw: u32) -> (r: EventType) {
        match raw {
            0 => EventType::Invalid,
            1 => EventType::TxQueueVacancy,
            2 => EventType::TxQueueEmpty,
            3 => EventType::TxFlushCompleted,
            4 => EventType::TxWatermarkCompleted,
            5 => EventType::TxCmdSent,
            6 => EventType::TxObjectSent,
            7 => EventType::TxObjectPurged,
            8 => EventType::TxRateChanged,
            9 => EventType::LocalSenderClosed,
            10 => EventType::RemoteSenderNew,
            11 => EventType::RemoteSenderReset,
            12 => EventType::RemoteSenderAddress,
            13 => EventType::RemoteSenderActive,
            14 => EventType::RemoteSenderInactive,
            15 => EventType::RemoteSenderPurged,
            16 => EventType::RxCmdNew,
            17 => EventType::RxObjectNew,
            18 => EventType::RxObjectInfo,
            19 => EventType::RxObjectUpdated,
            20 => EventType::RxObjectCompleted,
            21 => EventType::RxObjectAborted,
            22 => EventType::RxAckRequest,
            23 => EventType::GrttUpdated,
            24 => EventType::CcActive,
            25 => EventType::CcInactive,
            26 => EventType::AckingNodeNew,
            27 => EventType::SendError,
            28 => EventType::UserTimeout,
            _ => EventType::Invalid,
        }
    }
}

impl vstd::std_specs::convert::FromSpecImpl<u32> for EventType {
    open spec fn obeys_from_spec() -> bool {
        true
    }

    open spec fn from_spec(raw: u32) -> EventType {
        EventType::from_raw(raw)
    }
}

impl From<EventType> for u32 {
    fn from(t: EventType) -> (r: u32) {
        match t {
            EventType::Invalid => NORM_EVENT_INVALID,
            EventType::TxQueueVacancy => NORM_TX_QUEUE_VACANCY,
            EventType::TxQueueEmpty => NORM_TX_QUEUE_EMPTY,
            EventType::TxFlushCompleted => NORM_TX_FLUSH_COMPLETED,
            EventType::TxWatermarkCompleted => NORM_TX_WATERMARK_COMPLETED,
            EventType::TxCmdSent => NORM_TX_CMD_SENT,
            EventType::TxObjectSent => NORM_TX_OBJECT_SENT,
            EventType::TxObjectPurged => NORM_TX_OBJECT_PURGED,
            EventType::TxRateChanged => NORM_TX_RATE_CHANGED,
            EventType::LocalSenderClosed => NORM_LOCAL_SENDER_CLOSED,
            EventType::RemoteSenderNew => NORM_REMOTE_SENDER_NEW,
            EventType::RemoteSenderReset => NORM_REMOTE_SENDER_RESET,
            EventType::RemoteSenderAddress => NORM_REMOTE_SENDER_ADDRESS,
            EventType::RemoteSenderActive => NORM_REMOTE_SENDER_ACTIVE,
            EventType::RemoteSenderInactive => NORM_REMOTE_SENDER_INACTIVE,
            EventType::RemoteSenderPurged => NORM_REMOTE_SENDER_PURGED,
            EventType::RxCmdNew => NORM_RX_CMD_NEW,
            EventType::RxObjectNew => NORM_RX_OBJECT_NEW,
            EventType::RxObjectInfo => NORM_RX_OBJECT_INFO,
            EventType::RxObjectUpdated => NORM_RX_OBJECT_UPDATED,
            EventType::RxObjectCompleted => NORM_RX_OBJECT_COMPLETED,
            EventType::RxObjectAborted => NORM_RX_OBJECT_ABORTED,
            EventType::RxAckRequest => NORM_RX_ACK_REQUEST,
            EventType::GrttUpdated => NORM_GRTT_UPDATED,
            EventType::CcActive => NORM_CC_ACTIVE,
            EventType::CcInactive => NORM_CC_INACTIVE,
            EventType::AckingNodeNew => NORM_ACKING_NODE_NEW,
            EventType::SendError => NORM_SEND_ERROR,
            EventType::UserTimeout => NORM_USER_TIMEOUT,
        }
    }
}

impl vstd::std_specs::convert::FromSpecImpl<EventType> for u32 {
    open spec fn obeys_from_spec() -> bool {
        true
    }

    open spec fn from_spec(t: EventType) -> u32 {
        t.raw()
    }
}

/// Decoding native discriminants is total and lossless: each known
/// discriminant names exactly one kind, distinct kinds have distinct
/// discriminants, and every unknown discriminant reads as `Invalid`.
pub proof fn event_decoding_total(raw: u32, a: EventType, b: EventType)
    ensures
        EventType::from_raw(a.raw()) == a,
        a.raw() == b.raw() ==> a == b,
        a.raw() <= NORM_EVENT_MAX,
        raw <= NORM_EVENT_MAX ==> EventType::from_raw(raw).raw() == raw,
        raw > NORM_EVENT_MAX ==> EventType::from_raw(raw) == EventType::Invalid,
{
}

} // verus!
