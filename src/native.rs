//! The entry points of the native engine, and the log that models them.
use vstd::prelude::*;
use vstd::string::StrSliceExecFns;

verus! {

/// Sentinel the engine returns for an instance it could not create.
pub const NORM_INSTANCE_INVALID: u64 = 0;

/// Sentinel the engine returns for a session it could not create.
pub const NORM_SESSION_INVALID: u64 = 0;

/// Sentinel the engine returns for an object it could not create or find.
pub const NORM_OBJECT_INVALID: u64 = 0;

/// Sentinel the engine returns for a node it could not find.
pub const NORM_NODE_INVALID: u64 = 0;

/// Node identifier that lets the engine pick one.
pub const NORM_NODE_ANY: u32 = 0xffff_ffff;

/// An event record as the engine reports it: a kind discriminant and the
/// handles it concerns (the invalid sentinel where it concerns none).
#[derive(Debug, Clone, Copy, PartialEq, Eq, Structural)]
pub struct RawEvent {
    /// Native discriminant of the event's kind.
    pub kind: u32,
    /// The session the event belongs to.
    pub session: u64,
    /// The remote node the event concerns.
    pub sender: u64,
    /// The object the event concerns.
    pub object: u64,
}

/// Text the engine can take: it holds no NUL character.
pub open spec fn c_text(s: Seq<char>) -> bool {
    !s.contains('\0')
}

/// Whether the engine can take `s` as text.
pub fn is_c_text(s: &str) -> (r: bool)
    ensures
        r == c_text(s@),
{
    let n = s.unicode_len();
    let mut i: usize = 0;
    while i < n
        invariant
            n == s@.len(),
            i <= n,
            forall|j: int| 0 <= j < i ==> s@[j] != '\0',
        decreases n - i,
    {
        if s.get_char(i) == '\0' {
            return false;
        }
        i = i + 1;
    }
    true
}

/// The bytes an optional borrowed buffer holds.
pub open spec fn bytes_of(b: Option<&[u8]>) -> Option<Seq<u8>> {
    match b {
        Some(s) => Some(s@),
        None => None,
    }
}

/// The bytes an optional owned buffer holds.
pub open spec fn vec_bytes_of(b: Option<Vec<u8>>) -> Option<Seq<u8>> {
    match b {
        Some(v) => Some(v@),
        None => None,
    }
}

/// One invocation of an engine entry point, with its arguments and, where
/// there is one, the engine's reply in `result`. `B` holds byte buffers and
/// `S` text: the log kept by [`crate::Recorder`] holds `Vec<u8>` and `String`,
/// the model that contracts speak of holds `Seq<u8>` and `Seq<char>`.
#[derive(Debug, Clone, PartialEq)]
#[allow(inconsistent_fields)]
pub enum Call<B, S> {
    /// `NormCreateInstance`
    CreateInstance { priority_boost: bool, result: u64 },
    /// `NormDestroyInstance`
    DestroyInstance { instance: u64 },
    /// `NormStopInstance`
    StopInstance { instance: u64 },
    /// `NormRestartInstance`
    RestartInstance { instance: u64, result: bool },
    /// `NormSuspendInstance`
    SuspendInstance { instance: u64, result: bool },
    /// `NormResumeInstance`
    ResumeInstance { instance: u64 },
    /// `NormSetCacheDirectory`
    SetCacheDirectory { instance: u64, path: S, result: bool },
    /// `NormGetNextEvent`
    GetNextEvent { instance: u64, wait: bool, result: Option<RawEvent> },
    /// `NormGetDescriptor`
    GetDescriptor { instance: u64, result: i32 },
    /// `NormOpenDebugLog`
    OpenDebugLog { instance: u64, path: S, result: bool },
    /// `NormCloseDebugLog`
    CloseDebugLog { instance: u64 },
    /// `NormCreateSession`
    CreateSession { instance: u64, address: S, port: u16, local_node_id: u32, result: u64 },
    /// `NormDestroySession`
    DestroySession { session: u64 },
    /// `NormStartSender`
    StartSender { session: u64, session_id: u16, buffer_space: u32, segment_size: u16, num_data: u16, num_parity: u16, fec_id: u8, result: bool },
    /// `NormStopSender`
    StopSender { session: u64 },
    /// `NormStartReceiver`
    StartReceiver { session: u64, buffer_space: u32, result: bool },
    /// `NormStopReceiver`
    StopReceiver { session: u64 },
    /// `NormSetTxSocketBuffer`
    SetTxSocketBuffer { session: u64, size: u32, result: bool },
    /// `NormSetRxSocketBuffer`
    SetRxSocketBuffer { session: u64, size: u32, result: bool },
    /// `NormSetCongestionControl`
    SetCongestionControl { session: u64, enable: bool, adjust_rate: bool },
    /// `NormSetMulticastInterface`
    SetMulticastInterface { session: u64, interface: S, result: bool },
    /// `NormSetSSM`
    SetSsm { session: u64, source: S, result: bool },
    /// `NormSetTTL`
    SetTtl { session: u64, ttl: u8, result: bool },
    /// `NormSetTOS`
    SetTos { session: u64, tos: u8, result: bool },
    /// `NormSetLoopback`
    SetLoopback { session: u64, enable: bool, result: bool },
    /// `NormSetMulticastLoopback`
    SetMulticastLoopback { session: u64, enable: bool, result: bool },
    /// `NormIsUnicastAddress`
    IsUnicastAddress { address: S, result: bool },
    /// `NormFileEnqueue`
    FileEnqueue { session: u64, path: S, info: Option<B>, result: u64 },
    /// `NormDataEnqueue`
    DataEnqueue { session: u64, data: B, info: Option<B>, result: u64 },
    /// `NormStreamOpen`
    StreamOpen { session: u64, buffer_size: u32, info: Option<B>, result: u64 },
    /// `NormSetWatermark`
    SetWatermark { session: u64, object: u64, override_flush: bool, result: bool },
    /// `NormResetWatermark`
    ResetWatermark { session: u64, result: bool },
    /// `NormCancelWatermark`
    CancelWatermark { session: u64 },
    /// `NormSendCommand`
    SendCommand { session: u64, command: B, robust: bool, result: bool },
    /// `NormCancelCommand`
    CancelCommand { session: u64 },
    /// `NormObjectGetType`
    ObjectGetType { object: u64, result: u32 },
    /// `NormObjectHasInfo`
    ObjectHasInfo { object: u64, result: bool },
    /// `NormObjectGetInfoLength`
    ObjectGetInfoLength { object: u64, result: u16 },
    /// `NormObjectGetInfo`
    ObjectGetInfo { object: u64, max: u16, result: B },
    /// `NormObjectGetSize`
    ObjectGetSize { object: u64, result: i64 },
    /// `NormObjectGetBytesPending`
    ObjectGetBytesPending { object: u64, result: i64 },
    /// `NormDataAccessData`
    DataAccessData { object: u64, result: Option<B> },
    /// `NormObjectCancel`
    ObjectCancel { object: u64 },
    /// `NormObjectGetSender`
    ObjectGetSender { object: u64, result: u64 },
    /// `NormObjectRetain`
    ObjectRetain { object: u64 },
    /// `NormObjectRelease`
    ObjectRelease { object: u64 },
    /// `NormStreamWrite`
    StreamWrite { object: u64, data: B, result: u32 },
    /// `NormStreamFlush`
    StreamFlush { object: u64, eom: bool, mode: u32 },
    /// `NormStreamMarkEom`
    StreamMarkEom { object: u64 },
    /// `NormStreamClose`
    StreamClose { object: u64, graceful: bool },
    /// `NormStreamRead`
    StreamRead { object: u64, max: u32, result: Option<B> },
    /// `NormStreamHasVacancy`
    StreamHasVacancy { object: u64, result: bool },
    /// `NormStreamSeekMsgStart`
    StreamSeekMsgStart { object: u64, result: bool },
    /// `NormNodeGetId`
    NodeGetId { node: u64, result: u32 },
    /// `NormNodeRetain`
    NodeRetain { node: u64 },
    /// `NormNodeRelease`
    NodeRelease { node: u64 },
}

/// An invocation as contracts speak of it.
pub type CallModel = Call<Seq<u8>, Seq<char>>;

/// `new` is `old` followed by further invocations.
pub open spec fn extends(old: Seq<CallModel>, new: Seq<CallModel>) -> bool {
    &&& old.len() <= new.len()
    &&& forall|i: int| 0 <= i < old.len() ==> new[i] == old[i]
}

/// The invocations of `new` that follow those of `old`.
pub open spec fn since(old: Seq<CallModel>, new: Seq<CallModel>) -> Seq<CallModel> {
    new.skip(old.len() as int)
}

impl View for Call<Vec<u8>, String> {
    type V = Call<Seq<u8>, Seq<char>>;

    open spec fn view(&self) -> Call<Seq<u8>, Seq<char>> {
        match *self {
            Call::CreateInstance { priority_boost, result } => Call::CreateInstance {
                priority_boost, result
            },
            Call::DestroyInstance { instance } => Call::DestroyInstance {
                instance
            },
            Call::StopInstance { instance } => Call::StopInstance {
                instance
            },
            Call::RestartInstance { instance, result } => Call::RestartInstance {
                instance, result
            },
            Call::SuspendInstance { instance, result } => Call::SuspendInstance {
                instance, result
            },
            Call::ResumeInstance { instance } => Call::ResumeInstance {
                instance
            },
            Call::SetCacheDirectory { instance, path, result } => Call::SetCacheDirectory {
                instance, path: path@, result
            },
            Call::GetNextEvent { instance, wait, result } => Call::GetNextEvent {
                instance, wait, result
            },
            Call::GetDescriptor { instance, result } => Call::GetDescriptor {
                instance, result
            },
            Call::OpenDebugLog { instance, path, result } => Call::OpenDebugLog {
                instance, path: path@, result
            },
            Call::CloseDebugLog { instance } => Call::CloseDebugLog {
                instance
            },
            Call::CreateSession { instance, address, port, local_node_id, result } => Call::CreateSession {
                instance, address: address@, port, local_node_id, result
            },
            Call::DestroySession { session } => Call::DestroySession {
                session
            },
            Call::StartSender { session, session_id, buffer_space, segment_size, num_data, num_parity, fec_id, result } => Call::StartSender {
                session, session_id, buffer_space, segment_size, num_data, num_parity, fec_id, result
            },
            Call::StopSender { session } => Call::StopSender {
                session
            },
            Call::StartReceiver { session, buffer_space, result } => Call::StartReceiver {
                session, buffer_space, result
            },
            Call::StopReceiver { session } => Call::StopReceiver {
                session
            },
            Call::SetTxSocketBuffer { session, size, result } => Call::SetTxSocketBuffer {
                session, size, result
            },
            Call::SetRxSocketBuffer { session, size, result } => Call::SetRxSocketBuffer {
                session, size, result
            },
            Call::SetCongestionControl { session, enable, adjust_rate } => Call::SetCongestionControl {
                session, enable, adjust_rate
            },
            Call::SetMulticastInterface { session, interface, result } => Call::SetMulticastInterface {
                session, interface: interface@, result
            },
            Call::SetSsm { session, source, result } => Call::SetSsm {
                session, source: source@, result
            },
            Call::SetTtl { session, ttl, result } => Call::SetTtl {
                session, ttl, result
            },
            Call::SetTos { session, tos, result } => Call::SetTos {
                session, tos, result
            },
            Call::SetLoopback { session, enable, result } => Call::SetLoopback {
                session, enable, result
            },
            Call::SetMulticastLoopback { session, enable, result } => Call::SetMulticastLoopback {
                session, enable, result
            },
            Call::IsUnicastAddress { address, result } => Call::IsUnicastAddress {
                address: address@, result
            },
            Call::FileEnqueue { session, path, info, result } => Call::FileEnqueue {
                session, path: path@, info: vec_bytes_of(info), result
            },
            Call::DataEnqueue { session, data, info, result } => Call::DataEnqueue {
                session, data: data@, info: vec_bytes_of(info), result
            },
            Call::StreamOpen { session, buffer_size, info, result } => Call::StreamOpen {
                session, buffer_size, info: vec_bytes_of(info), result
            },
            Call::SetWatermark { session, object, override_flush, result } => Call::SetWatermark {
                session, object, override_flush, result
            },
            Call::ResetWatermark { session, result } => Call::ResetWatermark {
                session, result
            },
            Call::CancelWatermark { session } => Call::CancelWatermark {
                session
            },
            Call::SendCommand { session, command, robust, result } => Call::SendCommand {
                session, command: command@, robust, result
            },
            Call::CancelCommand { session } => Call::CancelCommand {
                session
            },
            Call::ObjectGetType { object, result } => Call::ObjectGetType {
                object, result
            },
            Call::ObjectHasInfo { object, result } => Call::ObjectHasInfo {
                object, result
            },
            Call::ObjectGetInfoLength { object, result } => Call::ObjectGetInfoLength {
                object, result
            },
            Call::ObjectGetInfo { object, max, result } => Call::ObjectGetInfo {
                object, max, result: result@
            },
            Call::ObjectGetSize { object, result } => Call::ObjectGetSize {
                object, result
            },
            Call::ObjectGetBytesPending { object, result } => Call::ObjectGetBytesPending {
                object, result
            },
            Call::DataAccessData { object, result } => Call::DataAccessData {
                object, result: vec_bytes_of(result)
            },
            Call::ObjectCancel { object } => Call::ObjectCancel {
                object
            },
            Call::ObjectGetSender { object, result } => Call::ObjectGetSender {
                object, result
            },
            Call::ObjectRetain { object } => Call::ObjectRetain {
                object
            },
            Call::ObjectRelease { object } => Call::ObjectRelease {
                object
            },
            Call::StreamWrite { object, data, result } => Call::StreamWrite {
                object, data: data@, result
            },
            Call::StreamFlush { object, eom, mode } => Call::StreamFlush {
                object, eom, mode
            },
            Call::StreamMarkEom { object } => Call::StreamMarkEom {
                object
            },
            Call::StreamClose { object, graceful } => Call::StreamClose {
                object, graceful
            },
            Call::StreamRead { object, max, result } => Call::StreamRead {
                object, max, result: vec_bytes_of(result)
            },
            Call::StreamHasVacancy { object, result } => Call::StreamHasVacancy {
                object, result
            },
            Call::StreamSeekMsgStart { object, result } => Call::StreamSeekMsgStart {
                object, result
            },
            Call::NodeGetId { node, result } => Call::NodeGetId {
                node, result
            },
            Call::NodeRetain { node } => Call::NodeRetain {
                node
            },
            Call::NodeRelease { node } => Call::NodeRelease {
                node
            },
        }
    }
}

/// The engine's entry points. An implementation forwards each method to the
/// native function named in its documentation; `calls` is the sequence of
/// invocations made so far, each with the reply the engine gave.
pub trait Native {
    /// Every invocation made so far, oldest first. An implementation that
    /// keeps no log leaves this at its default; its invocations are then
    /// described by the contracts but not recorded.
    open spec fn calls(&self) -> Seq<Call<Seq<u8>, Seq<char>>> {
        Seq::empty()
    }

    /// `NormCreateInstance`: creates an engine instance, or returns the invalid sentinel.
    fn create_instance(&mut self, priority_boost: bool) -> (r: u64)
        ensures
            final(self).calls() == old(self).calls().push(
                Call::CreateInstance { priority_boost, result: r },
            ),
    ;

    /// `NormDestroyInstance`: tears an instance down with every session under it.
    fn destroy_instance(&mut self, instance: u64)
        ensures
            final(self).calls() == old(self).calls().push(
                Call::DestroyInstance { instance },
            ),
    ;

    /// `NormStopInstance`: stops the instance's protocol thread.
    fn stop_instance(&mut self, instance: u64)
        ensures
            final(self).calls() == old(self).calls().push(
                Call::StopInstance { instance },
            ),
    ;

    /// `NormRestartInstance`: restarts a stopped instance.
    fn restart_instance(&mut self, instance: u64) -> (r: bool)
        ensures
            final(self).calls() == old(self).calls().push(
                Call::RestartInstance { instance, result: r },
            ),
    ;

    /// `NormSuspendInstance`: suspends the instance's protocol thread.
    fn suspend_instance(&mut self, instance: u64) -> (r: bool)
        ensures
            final(self).calls() == old(self).calls().push(
                Call::SuspendInstance { instance, result: r },
            ),
    ;

    /// `NormResumeInstance`: resumes a suspended instance.
    fn resume_instance(&mut self, instance: u64)
        ensures
            final(self).calls() == old(self).calls().push(
                Call::ResumeInstance { instance },
            ),
    ;

    /// `NormSetCacheDirectory`: where received files are stored.
    fn set_cache_directory(&mut self, instance: u64, path: &str) -> (r: bool)
        ensures
            final(self).calls() == old(self).calls().push(
                Call::SetCacheDirectory { instance, path: path@, result: r },
            ),
    ;

    /// `NormGetNextEvent`: the next pending event, waiting for one if asked.
    fn get_next_event(&mut self, instance: u64, wait: bool) -> (r: Option<RawEvent>)
        ensures
            final(self).calls() == old(self).calls().push(
                Call::GetNextEvent { instance, wait, result: r },
            ),
    ;

    /// `NormGetDescriptor`: a descriptor that becomes readable when an event is pending.
    fn get_descriptor(&mut self, instance: u64) -> (r: i32)
        ensures
            final(self).calls() == old(self).calls().push(
                Call::GetDescriptor { instance, result: r },
            ),
    ;

    /// `NormOpenDebugLog`: sends the engine's debug output to a file.
    fn open_debug_log(&mut self, instance: u64, path: &str) -> (r: bool)
        ensures
            final(self).calls() == old(self).calls().push(
                Call::OpenDebugLog { instance, path: path@, result: r },
            ),
    ;

    /// `NormCloseDebugLog`: closes the debug log.
    fn close_debug_log(&mut self, instance: u64)
        ensures
            final(self).calls() == old(self).calls().push(
                Call::CloseDebugLog { instance },
            ),
    ;

    /// `NormCreateSession`: a session bound to an address and port, or the invalid sentinel.
    fn create_session(&mut self, instance: u64, address: &str, port: u16, local_node_id: u32) -> (r: u64)
        ensures
            final(self).calls() == old(self).calls().push(
                Call::CreateSession { instance, address: address@, port, local_node_id, result: r },
            ),
    ;

    /// `NormDestroySession`: tears a session down.
    fn destroy_session(&mut self, session: u64)
        ensures
            final(self).calls() == old(self).calls().push(
                Call::DestroySession { session },
            ),
    ;

    /// `NormStartSender`: starts the sender role.
    fn start_sender(&mut self, session: u64, session_id: u16, buffer_space: u32, segment_size: u16, num_data: u16, num_parity: u16, fec_id: u8) -> (r: bool)
        ensures
            final(self).calls() == old(self).calls().push(
                Call::StartSender { session, session_id, buffer_space, segment_size, num_data, num_parity, fec_id, result: r },
            ),
    ;

    /// `NormStopSender`: stops the sender role.
    fn stop_sender(&mut self, session: u64)
        ensures
            final(self).calls() == old(self).calls().push(
                Call::StopSender { session },
            ),
    ;

    /// `NormStartReceiver`: starts the receiver role.
    fn start_receiver(&mut self, session: u64, buffer_space: u32) -> (r: bool)
        ensures
            final(self).calls() == old(self).calls().push(
                Call::StartReceiver { session, buffer_space, result: r },
            ),
    ;

    /// `NormStopReceiver`: stops the receiver role.
    fn stop_receiver(&mut self, session: u64)
        ensures
            final(self).calls() == old(self).calls().push(
                Call::StopReceiver { session },
            ),
    ;

    /// `NormSetTxSocketBuffer`: sizes the transmit socket buffer.
    fn set_tx_socket_buffer(&mut self, session: u64, size: u32) -> (r: bool)
        ensures
            final(self).calls() == old(self).calls().push(
                Call::SetTxSocketBuffer { session, size, result: r },
            ),
    ;

    /// `NormSetRxSocketBuffer`: sizes the receive socket buffer.
    fn set_rx_socket_buffer(&mut self, session: u64, size: u32) -> (r: bool)
        ensures
            final(self).calls() == old(self).calls().push(
                Call::SetRxSocketBuffer { session, size, result: r },
            ),
    ;

    /// `NormSetCongestionControl`: switches congestion control.
    fn set_congestion_control(&mut self, session: u64, enable: bool, adjust_rate: bool)
        ensures
            final(self).calls() == old(self).calls().push(
                Call::SetCongestionControl { session, enable, adjust_rate },
            ),
    ;

    /// `NormSetMulticastInterface`: the interface multicast traffic uses.
    fn set_multicast_interface(&mut self, session: u64, interface: &str) -> (r: bool)
        ensures
            final(self).calls() == old(self).calls().push(
                Call::SetMulticastInterface { session, interface: interface@, result: r },
            ),
    ;

    /// `NormSetSSM`: the source of source-specific multicast.
    fn set_ssm(&mut self, session: u64, source: &str) -> (r: bool)
        ensures
            final(self).calls() == old(self).calls().push(
                Call::SetSsm { session, source: source@, result: r },
            ),
    ;

    /// `NormSetTTL`: the multicast time-to-live.
    fn set_ttl(&mut self, session: u64, ttl: u8) -> (r: bool)
        ensures
            final(self).calls() == old(self).calls().push(
                Call::SetTtl { session, ttl, result: r },
            ),
    ;

    /// `NormSetTOS`: the IP type-of-service byte.
    fn set_tos(&mut self, session: u64, tos: u8) -> (r: bool)
        ensures
            final(self).calls() == old(self).calls().push(
                Call::SetTos { session, tos, result: r },
            ),
    ;

    /// `NormSetLoopback`: whether the session receives its own traffic.
    fn set_loopback(&mut self, session: u64, enable: bool) -> (r: bool)
        ensures
            final(self).calls() == old(self).calls().push(
                Call::SetLoopback { session, enable, result: r },
            ),
    ;

    /// `NormSetMulticastLoopback`: whether multicast traffic loops back to this host.
    fn set_multicast_loopback(&mut self, session: u64, enable: bool) -> (r: bool)
        ensures
            final(self).calls() == old(self).calls().push(
                Call::SetMulticastLoopback { session, enable, result: r },
            ),
    ;

    /// `NormIsUnicastAddress`: whether a textual address is unicast.
    fn is_unicast_address(&mut self, address: &str) -> (r: bool)
        ensures
            final(self).calls() == old(self).calls().push(
                Call::IsUnicastAddress { address: address@, result: r },
            ),
    ;

    /// `NormFileEnqueue`: queues a file for sending, or returns the invalid sentinel.
    fn file_enqueue(&mut self, session: u64, path: &str, info: Option<&[u8]>) -> (r: u64)
        ensures
            final(self).calls() == old(self).calls().push(
                Call::FileEnqueue { session, path: path@, info: bytes_of(info), result: r },
            ),
    ;

    /// `NormDataEnqueue`: queues a buffer for sending, or returns the invalid sentinel.
    fn data_enqueue(&mut self, session: u64, data: &[u8], info: Option<&[u8]>) -> (r: u64)
        ensures
            final(self).calls() == old(self).calls().push(
                Call::DataEnqueue { session, data: data@, info: bytes_of(info), result: r },
            ),
    ;

    /// `NormStreamOpen`: opens a stream for sending, or returns the invalid sentinel.
    fn stream_open(&mut self, session: u64, buffer_size: u32, info: Option<&[u8]>) -> (r: u64)
        ensures
            final(self).calls() == old(self).calls().push(
                Call::StreamOpen { session, buffer_size, info: bytes_of(info), result: r },
            ),
    ;

    /// `NormSetWatermark`: asks for acknowledgment up to an object.
    fn set_watermark(&mut self, session: u64, object: u64, override_flush: bool) -> (r: bool)
        ensures
            final(self).calls() == old(self).calls().push(
                Call::SetWatermark { session, object, override_flush, result: r },
            ),
    ;

    /// `NormResetWatermark`: restarts the current watermark.
    fn reset_watermark(&mut self, session: u64) -> (r: bool)
        ensures
            final(self).calls() == old(self).calls().push(
                Call::ResetWatermark { session, result: r },
            ),
    ;

    /// `NormCancelWatermark`: drops the current watermark.
    fn cancel_watermark(&mut self, session: u64)
        ensures
            final(self).calls() == old(self).calls().push(
                Call::CancelWatermark { session },
            ),
    ;

    /// `NormSendCommand`: sends an out-of-band command.
    fn send_command(&mut self, session: u64, command: &[u8], robust: bool) -> (r: bool)
        ensures
            final(self).calls() == old(self).calls().push(
                Call::SendCommand { session, command: command@, robust, result: r },
            ),
    ;

    /// `NormCancelCommand`: drops the pending command.
    fn cancel_command(&mut self, session: u64)
        ensures
            final(self).calls() == old(self).calls().push(
                Call::CancelCommand { session },
            ),
    ;

    /// `NormObjectGetType`: the native discriminant of an object's kind.
    fn object_get_type(&mut self, object: u64) -> (r: u32)
        ensures
            final(self).calls() == old(self).calls().push(
                Call::ObjectGetType { object, result: r },
            ),
    ;

    /// `NormObjectHasInfo`: whether an object carries info.
    fn object_has_info(&mut self, object: u64) -> (r: bool)
        ensures
            final(self).calls() == old(self).calls().push(
                Call::ObjectHasInfo { object, result: r },
            ),
    ;

    /// `NormObjectGetInfoLength`: the length of an object's info.
    fn object_get_info_length(&mut self, object: u64) -> (r: u16)
        ensures
            final(self).calls() == old(self).calls().push(
                Call::ObjectGetInfoLength { object, result: r },
            ),
    ;

    /// `NormObjectGetInfo`: at most `max` bytes of an object's info.
    fn object_get_info(&mut self, object: u64, max: u16) -> (r: Vec<u8>)
        ensures
            final(self).calls() == old(self).calls().push(
                Call::ObjectGetInfo { object, max, result: r@ },
            ),
            r@.len() <= max,
    ;

    /// `NormObjectGetSize`: an object's size in bytes.
    fn object_get_size(&mut self, object: u64) -> (r: i64)
        ensures
            final(self).calls() == old(self).calls().push(
                Call::ObjectGetSize { object, result: r },
            ),
    ;

    /// `NormObjectGetBytesPending`: bytes of an object not yet sent or received.
    fn object_get_bytes_pending(&mut self, object: u64) -> (r: i64)
        ensures
            final(self).calls() == old(self).calls().push(
                Call::ObjectGetBytesPending { object, result: r },
            ),
    ;

    /// `NormDataAccessData`: the buffer of a data object, if the engine has one.
    fn data_access_data(&mut self, object: u64) -> (r: Option<Vec<u8>>)
        ensures
            final(self).calls() == old(self).calls().push(
                Call::DataAccessData { object, result: vec_bytes_of(r) },
            ),
    ;

    /// `NormObjectCancel`: aborts sending or receiving an object.
    fn object_cancel(&mut self, object: u64)
        ensures
            final(self).calls() == old(self).calls().push(
                Call::ObjectCancel { object },
            ),
    ;

    /// `NormObjectGetSender`: the node that sent an object, or the invalid sentinel.
    fn object_get_sender(&mut self, object: u64) -> (r: u64)
        ensures
            final(self).calls() == old(self).calls().push(
                Call::ObjectGetSender { object, result: r },
            ),
    ;

    /// `NormObjectRetain`: adds a reference to an object.
    fn object_retain(&mut self, object: u64)
        ensures
            final(self).calls() == old(self).calls().push(
                Call::ObjectRetain { object },
            ),
    ;

    /// `NormObjectRelease`: drops a reference to an object.
    fn object_release(&mut self, object: u64)
        ensures
            final(self).calls() == old(self).calls().push(
                Call::ObjectRelease { object },
            ),
    ;

    /// `NormStreamWrite`: writes bytes to a stream and returns how many it took.
    fn stream_write(&mut self, object: u64, data: &[u8]) -> (r: u32)
        ensures
            final(self).calls() == old(self).calls().push(
                Call::StreamWrite { object, data: data@, result: r },
            ),
    ;

    /// `NormStreamFlush`: flushes a stream.
    fn stream_flush(&mut self, object: u64, eom: bool, mode: u32)
        ensures
            final(self).calls() == old(self).calls().push(
                Call::StreamFlush { object, eom, mode },
            ),
    ;

    /// `NormStreamMarkEom`: marks the end of a message in a stream.
    fn stream_mark_eom(&mut self, object: u64)
        ensures
            final(self).calls() == old(self).calls().push(
                Call::StreamMarkEom { object },
            ),
    ;

    /// `NormStreamClose`: closes a stream.
    fn stream_close(&mut self, object: u64, graceful: bool)
        ensures
            final(self).calls() == old(self).calls().push(
                Call::StreamClose { object, graceful },
            ),
    ;

    /// `NormStreamRead`: at most `max` bytes read from a stream, or nothing on failure.
    fn stream_read(&mut self, object: u64, max: u32) -> (r: Option<Vec<u8>>)
        ensures
            final(self).calls() == old(self).calls().push(
                Call::StreamRead { object, max, result: vec_bytes_of(r) },
            ),
            r is Some ==> r->Some_0@.len() <= max,
    ;

    /// `NormStreamHasVacancy`: whether a stream takes more bytes now.
    fn stream_has_vacancy(&mut self, object: u64) -> (r: bool)
        ensures
            final(self).calls() == old(self).calls().push(
                Call::StreamHasVacancy { object, result: r },
            ),
    ;

    /// `NormStreamSeekMsgStart`: skips to the next message start in a stream.
    fn stream_seek_msg_start(&mut self, object: u64) -> (r: bool)
        ensures
            final(self).calls() == old(self).calls().push(
                Call::StreamSeekMsgStart { object, result: r },
            ),
    ;

    /// `NormNodeGetId`: a node's identifier.
    fn node_get_id(&mut self, node: u64) -> (r: u32)
        ensures
            final(self).calls() == old(self).calls().push(
                Call::NodeGetId { node, result: r },
            ),
    ;

    /// `NormNodeRetain`: adds a reference to a node.
    fn node_retain(&mut self, node: u64)
        ensures
            final(self).calls() == old(self).calls().push(
                Call::NodeRetain { node },
            ),
    ;

    /// `NormNodeRelease`: drops a reference to a node.
    fn node_release(&mut self, node: u64)
        ensures
            final(self).calls() == old(self).calls().push(
                Call::NodeRelease { node },
            ),
    ;
}

} // verus!
