//! An in-memory engine that records every invocation.
use vstd::prelude::*;
use vstd::slice::slice_to_vec;
use vstd::string::StringExecFns;
use crate::native::{bytes_of, vec_bytes_of, Call, Native, RawEvent};
use crate::types::{NORM_OBJECT_DATA, NORM_OBJECT_FILE, NORM_OBJECT_NONE, NORM_OBJECT_STREAM};

verus! {

/// An object the in-memory engine holds.
#[derive(Debug, Clone)]
struct HeldObject {
    handle: u64,
    kind: u32,
    info: Option<Vec<u8>>,
    data: Vec<u8>,
    sender: u64,
    read_pos: usize,
}

/// An in-memory engine that keeps the log of every invocation made on it
/// and answers from a small model: creations hand out fresh handles;
/// enqueues succeed only while the sender role is started; an object's
/// kind, info and data are those it was made with, and an empty data
/// object has no buffer; events are delivered in the order they were
/// queued, and a poll with none left answers nothing; every other
/// yes-or-no request is answered with the `accept` setting.
#[derive(Debug)]
pub struct Recorder {
    log: Vec<Call<Vec<u8>, String>>,
    accept: bool,
    next_handle: u64,
    sender_started: bool,
    pending: Vec<RawEvent>,
    delivered: usize,
    objects: Vec<HeldObject>,
}

/// A copy of optional info.
fn copy_info(info: Option<&[u8]>) -> (r: Option<Vec<u8>>)
    ensures
        vec_bytes_of(r) == bytes_of(info),
{
    match info {
        Some(bytes) => Some(slice_to_vec(bytes)),
        None => None,
    }
}

/// A copy of an optional buffer.
fn copy_buffer(b: &Option<Vec<u8>>) -> (r: Option<Vec<u8>>)
    ensures
        vec_bytes_of(r) == vec_bytes_of(*b),
{
    match b {
        Some(bytes) => Some(bytes.clone()),
        None => None,
    }
}

impl Recorder {
    /// An engine with an empty log that accepts every request, with no
    /// events queued and no objects.
    pub fn new() -> (r: Recorder)
        ensures
            r.calls() == Seq::<Call<Seq<u8>, Seq<char>>>::empty(),
    {
        let r = Recorder {
            log: Vec::new(),
            accept: true,
            next_handle: 1,
            sender_started: false,
            pending: Vec::new(),
            delivered: 0,
            objects: Vec::new(),
        };
        assert(r.calls() =~= Seq::<Call<Seq<u8>, Seq<char>>>::empty());
        r
    }

    /// Sets the answer to every yes-or-no request, and whether creations
    /// and enqueues succeed.
    pub fn set_accept(&mut self, accept: bool)
        ensures
            final(self).calls() == old(self).calls(),
    {
        self.accept = accept;
    }

    /// Queues an event for delivery.
    pub fn push_event(&mut self, event: RawEvent)
        ensures
            final(self).calls() == old(self).calls(),
    {
        self.pending.push(event);
    }

    /// Adds an object as if it had been received, and returns its handle
    /// (the invalid sentinel when handles are exhausted).
    pub fn add_object(&mut self, kind: u32, info: Option<Vec<u8>>, data: Vec<u8>, sender: u64) -> (r: u64)
        ensures
            final(self).calls() == old(self).calls(),
    {
        if self.next_handle == u64::MAX {
            return 0;
        }
        let handle = self.next_handle;
        self.next_handle = self.next_handle + 1;
        self.objects.push(HeldObject { handle, kind, info, data, sender, read_pos: 0 });
        handle
    }

    /// The log of invocations, oldest first.
    pub fn log(&self) -> (r: &Vec<Call<Vec<u8>, String>>)
        ensures
            r@.map_values(|c: Call<Vec<u8>, String>| c@) == self.calls(),
    {
        &self.log
    }

    /// Appends one invocation to the log.
    fn record(&mut self, c: Call<Vec<u8>, String>)
        ensures
            final(self).calls() == old(self).calls().push(c@),
            final(self).accept == old(self).accept,
            final(self).next_handle == old(self).next_handle,
            final(self).sender_started == old(self).sender_started,
            final(self).pending == old(self).pending,
            final(self).delivered == old(self).delivered,
            final(self).objects == old(self).objects,
    {
        let ghost before = self.log@;
        self.log.push(c);
        assert(self.log@.map_values(|x: Call<Vec<u8>, String>| x@) =~= before.map_values(
            |x: Call<Vec<u8>, String>| x@,
        ).push(c@));
    }

    /// A fresh handle, or the invalid sentinel when refusing or exhausted.
    fn fresh_handle(&mut self) -> (r: u64)
        ensures
            final(self).log == old(self).log,
    {
        if !self.accept || self.next_handle == u64::MAX {
            return 0;
        }
        let handle = self.next_handle;
        self.next_handle = self.next_handle + 1;
        handle
    }

    /// The next queued event, if one is left.
    fn take_event(&mut self) -> (r: Option<RawEvent>)
        ensures
            final(self).log == old(self).log,
    {
        if self.delivered < self.pending.len() {
            let event = self.pending[self.delivered];
            self.delivered = self.delivered + 1;
            Some(event)
        } else {
            None
        }
    }

    /// Makes an object of the given kind while the sender role is started.
    fn enqueue(&mut self, kind: u32, info: Option<Vec<u8>>, data: Vec<u8>) -> (r: u64)
        ensures
            final(self).log == old(self).log,
    {
        if !self.sender_started {
            return 0;
        }
        let handle = self.fresh_handle();
        if handle != 0 {
            self.objects.push(HeldObject { handle, kind, info, data, sender: 0, read_pos: 0 });
        }
        handle
    }

    /// The position of object `h`.
    fn find(&self, h: u64) -> (r: Option<usize>)
        ensures
            r is Some ==> r->Some_0 < self.objects@.len(),
    {
        let mut i: usize = 0;
        while i < self.objects.len()
            invariant
                i <= self.objects@.len(),
            decreases self.objects@.len() - i,
        {
            if self.objects[i].handle == h {
                return Some(i);
            }
            i = i + 1;
        }
        None
    }

    /// The kind discriminant of object `h`.
    fn kind_of(&self, h: u64) -> u32 {
        match self.find(h) {
            Some(i) => self.objects[i].kind,
            None => NORM_OBJECT_NONE,
        }
    }

    /// Whether object `h` has info.
    fn has_info(&self, h: u64) -> bool {
        match self.find(h) {
            Some(i) => self.objects[i].info.is_some(),
            None => false,
        }
    }

    /// The length of object `h`'s info.
    fn info_length(&self, h: u64) -> u16 {
        match self.find(h) {
            Some(i) => match &self.objects[i].info {
                Some(info) => if info.len() > 0xffff {
                    0xffff
                } else {
                    info.len() as u16
                },
                None => 0,
            },
            None => 0,
        }
    }

    /// At most `max` bytes of object `h`'s info.
    fn info_prefix(&self, h: u64, max: u16) -> (r: Vec<u8>)
        ensures
            r@.len() <= max,
    {
        let mut out: Vec<u8> = Vec::new();
        match self.find(h) {
            Some(i) => match &self.objects[i].info {
                Some(info) => {
                    let mut k: usize = 0;
                    while k < info.len() && k < max as usize
                        invariant
                            out@.len() == k,
                            k <= max,
                        decreases info@.len() - k,
                    {
                        out.push(info[k]);
                        k = k + 1;
                    }
                },
                None => {},
            },
            None => {},
        }
        out
    }

    /// The size of object `h`'s data.
    fn size_of(&self, h: u64) -> i64 {
        match self.find(h) {
            Some(i) => if self.objects[i].data.len() as u64 > i64::MAX as u64 {
                i64::MAX
            } else {
                self.objects[i].data.len() as i64
            },
            None => 0,
        }
    }

    /// The buffer of data object `h`; an empty one has none.
    fn data_of(&self, h: u64) -> Option<Vec<u8>> {
        match self.find(h) {
            Some(i) => if self.objects[i].kind == NORM_OBJECT_DATA && self.objects[i].data.len() > 0 {
                Some(self.objects[i].data.clone())
            } else {
                None
            },
            None => None,
        }
    }

    /// The node that sent object `h`.
    fn sender_of(&self, h: u64) -> u64 {
        match self.find(h) {
            Some(i) => self.objects[i].sender,
            None => 0,
        }
    }

    /// How many bytes stream `h` takes of `data`.
    fn write_count(&self, h: u64, data: &[u8]) -> u32 {
        if !self.accept || self.kind_of(h) != NORM_OBJECT_STREAM {
            0
        } else if data.len() > 0xffff_ffff {
            0xffff_ffff
        } else {
            data.len() as u32
        }
    }

    /// Reads at most `max` unread bytes of stream `h`.
    fn read_stream(&mut self, h: u64, max: u32) -> (r: Option<Vec<u8>>)
        ensures
            r is Some ==> r->Some_0@.len() <= max,
            final(self).log == old(self).log,
    {
        let i = match self.find(h) {
            Some(i) => i,
            None => {
                return None;
            },
        };
        if self.objects[i].kind != NORM_OBJECT_STREAM {
            return None;
        }
        let mut held = self.objects[i].clone();
        let mut out: Vec<u8> = Vec::new();
        let pos = held.read_pos;
        if pos <= held.data.len() {
            let mut k: usize = 0;
            while k < held.data.len() - pos && k < max as usize
                invariant
                    out@.len() == k,
                    k <= max,
                    pos <= held.data@.len(),
                    k <= held.data@.len() - pos,
                decreases held.data@.len() - pos - k,
            {
                out.push(held.data[pos + k]);
                k = k + 1;
            }
            held.read_pos = pos + k;
        }
        self.objects.set(i, held);
        Some(out)
    }
}

impl Native for Recorder {
    closed spec fn calls(&self) -> Seq<Call<Seq<u8>, Seq<char>>> {
        self.log@.map_values(|c: Call<Vec<u8>, String>| c@)
    }

    fn create_instance(&mut self, priority_boost: bool) -> (r: u64) {
        let result = self.fresh_handle();
        self.record(Call::CreateInstance { priority_boost, result });
        result
    }

    fn destroy_instance(&mut self, instance: u64) {
        self.record(Call::DestroyInstance { instance });
    }

    fn stop_instance(&mut self, instance: u64) {
        self.record(Call::StopInstance { instance });
    }

    fn restart_instance(&mut self, instance: u64) -> (r: bool) {
        let result = self.accept;
        self.record(Call::RestartInstance { instance, result });
        result
    }

    fn suspend_instance(&mut self, instance: u64) -> (r: bool) {
        let result = self.accept;
        self.record(Call::SuspendInstance { instance, result });
        result
    }

    fn resume_instance(&mut self, instance: u64) {
        self.record(Call::ResumeInstance { instance });
    }

    fn set_cache_directory(&mut self, instance: u64, path: &str) -> (r: bool) {
        let result = self.accept;
        self.record(Call::SetCacheDirectory { instance, path: String::from_str(path), result });
        result
    }

    fn get_next_event(&mut self, instance: u64, wait: bool) -> (r: Option<RawEvent>) {
        let result = self.take_event();
        self.record(Call::GetNextEvent { instance, wait, result });
        result
    }

    fn get_descriptor(&mut self, instance: u64) -> (r: i32) {
        let result = -1i32;
        self.record(Call::GetDescriptor { instance, result });
        result
    }

    fn open_debug_log(&mut self, instance: u64, path: &str) -> (r: bool) {
        let result = self.accept;
        self.record(Call::OpenDebugLog { instance, path: String::from_str(path), result });
        result
    }

    fn close_debug_log(&mut self, instance: u64) {
        self.record(Call::CloseDebugLog { instance });
    }

    fn create_session(&mut self, instance: u64, address: &str, port: u16, local_node_id: u32) -> (r: u64) {
        let result = self.fresh_handle();
        self.record(Call::CreateSession { instance, address: String::from_str(address), port, local_node_id, result });
        result
    }

    fn destroy_session(&mut self, session: u64) {
        self.record(Call::DestroySession { session });
    }

    fn start_sender(&mut self, session: u64, session_id: u16, buffer_space: u32, segment_size: u16, num_data: u16, num_parity: u16, fec_id: u8) -> (r: bool) {
        let result = self.accept;
        self.sender_started = result;
        self.record(Call::StartSender { session, session_id, buffer_space, segment_size, num_data, num_parity, fec_id, result });
        result
    }

    fn stop_sender(&mut self, session: u64) {
        self.sender_started = false;
        self.record(Call::StopSender { session });
    }

    fn start_receiver(&mut self, session: u64, buffer_space: u32) -> (r: bool) {
        let result = self.accept;
        self.record(Call::StartReceiver { session, buffer_space, result });
        result
    }

    fn stop_receiver(&mut self, session: u64) {
        self.record(Call::StopReceiver { session });
    }

    fn set_tx_socket_buffer(&mut self, session: u64, size: u32) -> (r: bool) {
        let result = self.accept;
        self.record(Call::SetTxSocketBuffer { session, size, result });
        result
    }

    fn set_rx_socket_buffer(&mut self, session: u64, size: u32) -> (r: bool) {
        let result = self.accept;
        self.record(Call::SetRxSocketBuffer { session, size, result });
        result
    }

    fn set_congestion_control(&mut self, session: u64, enable: bool, adjust_rate: bool) {
        self.record(Call::SetCongestionControl { session, enable, adjust_rate });
    }

    fn set_multicast_interface(&mut self, session: u64, interface: &str) -> (r: bool) {
        let result = self.accept;
        self.record(Call::SetMulticastInterface { session, interface: String::from_str(interface), result });
        result
    }

    fn set_ssm(&mut self, session: u64, source: &str) -> (r: bool) {
        let result = self.accept;
        self.record(Call::SetSsm { session, source: String::from_str(source), result });
        result
    }

    fn set_ttl(&mut self, session: u64, ttl: u8) -> (r: bool) {
        let result = self.accept;
        self.record(Call::SetTtl { session, ttl, result });
        result
    }

    fn set_tos(&mut self, session: u64, tos: u8) -> (r: bool) {
        let result = self.accept;
        self.record(Call::SetTos { session, tos, result });
        result
    }

    fn set_loopback(&mut self, session: u64, enable: bool) -> (r: bool) {
        let result = self.accept;
        self.record(Call::SetLoopback { session, enable, result });
        result
    }

    fn set_multicast_loopback(&mut self, session: u64, enable: bool) -> (r: bool) {
        let result = self.accept;
        self.record(Call::SetMulticastLoopback { session, enable, result });
        result
    }

    fn is_unicast_address(&mut self, address: &str) -> (r: bool) {
        let result = self.accept;
        self.record(Call::IsUnicastAddress { address: String::from_str(address), result });
        result
    }

    fn file_enqueue(&mut self, session: u64, path: &str, info: Option<&[u8]>) -> (r: u64) {
        let result = self.enqueue(NORM_OBJECT_FILE, copy_info(info), Vec::new());
        self.record(Call::FileEnqueue { session, path: String::from_str(path), info: copy_info(info), result });
        result
    }

    fn data_enqueue(&mut self, session: u64, data: &[u8], info: Option<&[u8]>) -> (r: u64) {
        let result = self.enqueue(NORM_OBJECT_DATA, copy_info(info), slice_to_vec(data));
        self.record(Call::DataEnqueue { session, data: slice_to_vec(data), info: copy_info(info), result });
        result
    }

    fn stream_open(&mut self, session: u64, buffer_size: u32, info: Option<&[u8]>) -> (r: u64) {
        let result = self.enqueue(NORM_OBJECT_STREAM, copy_info(info), Vec::new());
        self.record(Call::StreamOpen { session, buffer_size, info: copy_info(info), result });
        result
    }

    fn set_watermark(&mut self, session: u64, object: u64, override_flush: bool) -> (r: bool) {
        let result = self.accept;
        self.record(Call::SetWatermark { session, object, override_flush, result });
        result
    }

    fn reset_watermark(&mut self, session: u64) -> (r: bool) {
        let result = self.accept;
        self.record(Call::ResetWatermark { session, result });
        result
    }

    fn cancel_watermark(&mut self, session: u64) {
        self.record(Call::CancelWatermark { session });
    }

    fn send_command(&mut self, session: u64, command: &[u8], robust: bool) -> (r: bool) {
        let result = self.accept;
        self.record(Call::SendCommand { session, command: slice_to_vec(command), robust, result });
        result
    }

    fn cancel_command(&mut self, session: u64) {
        self.record(Call::CancelCommand { session });
    }

    fn object_get_type(&mut self, object: u64) -> (r: u32) {
        let result = self.kind_of(object);
        self.record(Call::ObjectGetType { object, result });
        result
    }

    fn object_has_info(&mut self, object: u64) -> (r: bool) {
        let result = self.has_info(object);
        self.record(Call::ObjectHasInfo { object, result });
        result
    }

    fn object_get_info_length(&mut self, object: u64) -> (r: u16) {
        let result = self.info_length(object);
        self.record(Call::ObjectGetInfoLength { object, result });
        result
    }

    fn object_get_info(&mut self, object: u64, max: u16) -> (r: Vec<u8>) {
        let result = self.info_prefix(object, max);
        self.record(Call::ObjectGetInfo { object, max, result: result.clone() });
        result
    }

    fn object_get_size(&mut self, object: u64) -> (r: i64) {
        let result = self.size_of(object);
        self.record(Call::ObjectGetSize { object, result });
        result
    }

    fn object_get_bytes_pending(&mut self, object: u64) -> (r: i64) {
        let result = 0i64;
        self.record(Call::ObjectGetBytesPending { object, result });
        result
    }

    fn data_access_data(&mut self, object: u64) -> (r: Option<Vec<u8>>) {
        let result = self.data_of(object);
        self.record(Call::DataAccessData { object, result: copy_buffer(&result) });
        result
    }

    fn object_cancel(&mut self, object: u64) {
        self.record(Call::ObjectCancel { object });
    }

    fn object_get_sender(&mut self, object: u64) -> (r: u64) {
        let result = self.sender_of(object);
        self.record(Call::ObjectGetSender { object, result });
        result
    }

    fn object_retain(&mut self, object: u64) {
        self.record(Call::ObjectRetain { object });
    }

    fn object_release(&mut self, object: u64) {
        self.record(Call::ObjectRelease { object });
    }

    fn stream_write(&mut self, object: u64, data: &[u8]) -> (r: u32) {
        let result = self.write_count(object, data);
        self.record(Call::StreamWrite { object, data: slice_to_vec(data), result });
        result
    }

    fn stream_flush(&mut self, object: u64, eom: bool, mode: u32) {
        self.record(Call::StreamFlush { object, eom, mode });
    }

    fn stream_mark_eom(&mut self, object: u64) {
        self.record(Call::StreamMarkEom { object });
    }

    fn stream_close(&mut self, object: u64, graceful: bool) {
        self.record(Call::StreamClose { object, graceful });
    }

    fn stream_read(&mut self, object: u64, max: u32) -> (r: Option<Vec<u8>>) {
        let result = self.read_stream(object, max);
        self.record(Call::StreamRead { object, max, result: copy_buffer(&result) });
        result
    }

    fn stream_has_vacancy(&mut self, object: u64) -> (r: bool) {
        let result = self.accept;
        self.record(Call::StreamHasVacancy { object, result });
        result
    }

    fn stream_seek_msg_start(&mut self, object: u64) -> (r: bool) {
        let result = self.accept;
        self.record(Call::StreamSeekMsgStart { object, result });
        result
    }

    fn node_get_id(&mut self, node: u64) -> (r: u32) {
        let result = (node % 0x1_0000_0000) as u32;
        self.record(Call::NodeGetId { node, result });
        result
    }

    fn node_retain(&mut self, node: u64) {
        self.record(Call::NodeRetain { node });
    }

    fn node_release(&mut self, node: u64) {
        self.record(Call::NodeRelease { node });
    }
}

} // verus!
