//! Wrapper of a protocol session's handle.
use vstd::prelude::*;
use crate::error::Error;
use crate::native::{bytes_of, c_text, is_c_text, CallModel, Native, NORM_OBJECT_INVALID, NORM_SESSION_INVALID};
use crate::object::Object;

verus! {

/// One protocol session bound to an address and port. It must not outlive
/// the [`crate::Instance`] that created it.
#[derive(Debug)]
pub struct Session {
    handle: u64,
}

/// `r` answers a request on `s` that the engine accepted (`ok`) or refused:
/// `s` itself for chaining, or `OperationFailed`.
pub open spec fn chained(r: Result<&Session, Error>, s: &Session, ok: bool) -> bool {
    if ok {
        r == Ok::<&Session, Error>(s)
    } else {
        r is Err && r->Err_0 is OperationFailed
    }
}

/// `r` answers a request that the engine accepted (`ok`) or refused.
pub open spec fn done(r: Result<(), Error>, ok: bool) -> bool {
    if ok {
        r is Ok
    } else {
        r is Err && r->Err_0 is OperationFailed
    }
}

/// The handle an enqueue produced: the object's, or the invalid sentinel on failure.
pub open spec fn object_handle_of(r: Result<Object, Error>) -> u64 {
    match r {
        Ok(o) => o.spec_handle(),
        Err(_) => NORM_OBJECT_INVALID,
    }
}

/// A successful enqueue yields an owned object whose handle is not the
/// invalid sentinel.
pub open spec fn enqueued(r: Result<Object, Error>) -> bool {
    match r {
        Ok(o) => o.spec_owned() && o.spec_handle() != NORM_OBJECT_INVALID,
        Err(_) => true,
    }
}

/// The optional info fits the engine's length field.
pub open spec fn info_fits(info: Option<&[u8]>) -> bool {
    info is Some ==> info->Some_0@.len() <= u32::MAX
}

impl Session {
    /// The native handle.
    pub closed spec fn spec_handle(&self) -> u64 {
        self.handle
    }

    /// Creates a session of `instance` on `address:port`: `InvalidString`
    /// for an address with a NUL, without asking the engine;
    /// `InvalidHandle` when the engine returns its invalid sentinel.
    pub fn new<E: Native>(e: &mut E, instance: u64, session_address: &str, session_port: u16, local_node_id: u32) -> (r: Result<Session, Error>)
        ensures
            !c_text(session_address@) ==> final(e).calls() == old(e).calls()
                && r == Err::<Session, Error>(Error::InvalidString),
            c_text(session_address@) ==> {
                let h = match r {
                    Ok(s) => s.spec_handle(),
                    Err(_) => NORM_SESSION_INVALID,
                };
                &&& final(e).calls() == old(e).calls().push(
                    CallModel::CreateSession {
                        instance,
                        address: session_address@,
                        port: session_port,
                        local_node_id,
                        result: h,
                    },
                )
                &&& r is Ok ==> h != NORM_SESSION_INVALID
                &&& r is Err ==> r == Err::<Session, Error>(Error::InvalidHandle)
            },
    {
        if !is_c_text(session_address) {
            return Err(Error::InvalidString);
        }
        let handle = e.create_session(instance, session_address, session_port, local_node_id);
        if handle == NORM_SESSION_INVALID {
            Err(Error::InvalidHandle)
        } else {
            Ok(Session { handle })
        }
    }

    /// The native handle.
    pub fn handle(&self) -> (r: u64)
        ensures
            r == self.spec_handle(),
    {
        self.handle
    }

    /// Starts the sender role with the given buffer and FEC geometry
    /// (`fec_id` 0 when absent); `OperationFailed` when the engine rejects it.
    pub fn start_sender<E: Native>(
        &self,
        e: &mut E,
        instance_id: u16,
        buffer_space: u32,
        segment_size: u16,
        num_data: u16,
        num_parity: u16,
        fec_id: Option<u8>,
    ) -> (r: Result<&Self, Error>)
        ensures
            final(e).calls() == old(e).calls().push(
                CallModel::StartSender {
                    session: self.spec_handle(),
                    session_id: instance_id,
                    buffer_space,
                    segment_size,
                    num_data,
                    num_parity,
                    fec_id: match fec_id {
                        Some(id) => id,
                        None => 0u8,
                    },
                    result: r is Ok,
                },
            ),
            chained(r, self, r is Ok),
    {
        let fec: u8 = match fec_id {
            Some(id) => id,
            None => 0,
        };
        if e.start_sender(self.handle, instance_id, buffer_space, segment_size, num_data, num_parity, fec) {
            Ok(self)
        } else {
            Err(Error::failed("Failed to start NORM sender"))
        }
    }


    /// Stops the sender role; always succeeds.
    pub fn stop_sender<E: Native>(&self, e: &mut E) -> (r: &Self)
        ensures
            final(e).calls() == old(e).calls().push(
                CallModel::StopSender { session: self.spec_handle() },
            ),
            r == self,
    {
        e.stop_sender(self.handle);
        self
    }

    /// Starts the receiver role; `OperationFailed` when the engine rejects it.
    pub fn start_receiver<E: Native>(&self, e: &mut E, buffer_space: u32) -> (r: Result<&Self, Error>)
        ensures
            final(e).calls() == old(e).calls().push(
                CallModel::StartReceiver { session: self.spec_handle(), buffer_space, result: r is Ok },
            ),
            chained(r, self, r is Ok),
    {
        if e.start_receiver(self.handle, buffer_space) {
            Ok(self)
        } else {
            Err(Error::failed("Failed to start NORM receiver"))
        }
    }

    /// Stops the receiver role; always succeeds.
    pub fn stop_receiver<E: Native>(&self, e: &mut E) -> (r: &Self)
        ensures
            final(e).calls() == old(e).calls().push(
                CallModel::StopReceiver { session: self.spec_handle() },
            ),
            r == self,
    {
        e.stop_receiver(self.handle);
        self
    }

    /// Sizes the transmit socket buffer; `OperationFailed` when refused.
    pub fn set_tx_socket_buffer<E: Native>(&self, e: &mut E, buffer_size: u32) -> (r: Result<&Self, Error>)
        ensures
            final(e).calls() == old(e).calls().push(
                CallModel::SetTxSocketBuffer { session: self.spec_handle(), size: buffer_size, result: r is Ok },
            ),
            chained(r, self, r is Ok),
    {
        if e.set_tx_socket_buffer(self.handle, buffer_size) {
            Ok(self)
        } else {
            Err(Error::failed("Failed to set TX socket buffer size"))
        }
    }

    /// Sizes the receive socket buffer; `OperationFailed` when refused.
    pub fn set_rx_socket_buffer<E: Native>(&self, e: &mut E, buffer_size: u32) -> (r: Result<&Self, Error>)
        ensures
            final(e).calls() == old(e).calls().push(
                CallModel::SetRxSocketBuffer { session: self.spec_handle(), size: buffer_size, result: r is Ok },
            ),
            chained(r, self, r is Ok),
    {
        if e.set_rx_socket_buffer(self.handle, buffer_size) {
            Ok(self)
        } else {
            Err(Error::failed("Failed to set RX socket buffer size"))
        }
    }

    /// Switches congestion control and rate adjustment; the engine clamps, never refuses.
    pub fn set_congestion_control<E: Native>(&self, e: &mut E, enable: bool, adjust_rate: bool) -> (r: &Self)
        ensures
            final(e).calls() == old(e).calls().push(
                CallModel::SetCongestionControl { session: self.spec_handle(), enable, adjust_rate },
            ),
            r == self,
    {
        e.set_congestion_control(self.handle, enable, adjust_rate);
        self
    }

    /// Sets the multicast time-to-live; `OperationFailed` when refused.
    pub fn set_ttl<E: Native>(&self, e: &mut E, ttl: u8) -> (r: Result<&Self, Error>)
        ensures
            final(e).calls() == old(e).calls().push(
                CallModel::SetTtl { session: self.spec_handle(), ttl, result: r is Ok },
            ),
            chained(r, self, r is Ok),
    {
        if e.set_ttl(self.handle, ttl) {
            Ok(self)
        } else {
            Err(Error::failed("Failed to set TTL"))
        }
    }

    /// Sets the IP type-of-service byte; `OperationFailed` when refused.
    pub fn set_tos<E: Native>(&self, e: &mut E, tos: u8) -> (r: Result<&Self, Error>)
        ensures
            final(e).calls() == old(e).calls().push(
                CallModel::SetTos { session: self.spec_handle(), tos, result: r is Ok },
            ),
            chained(r, self, r is Ok),
    {
        if e.set_tos(self.handle, tos) {
            Ok(self)
        } else {
            Err(Error::failed("Failed to set TOS"))
        }
    }

    /// Whether the session receives its own traffic; `OperationFailed` when refused.
    pub fn set_loopback<E: Native>(&self, e: &mut E, enable: bool) -> (r: Result<&Self, Error>)
        ensures
            final(e).calls() == old(e).calls().push(
                CallModel::SetLoopback { session: self.spec_handle(), enable, result: r is Ok },
            ),
            chained(r, self, r is Ok),
    {
        if e.set_loopback(self.handle, enable) {
            Ok(self)
        } else {
            Err(Error::failed("Failed to set loopback"))
        }
    }

    /// Whether multicast traffic loops back to this host; `OperationFailed` when refused.
    pub fn set_multicast_loopback<E: Native>(&self, e: &mut E, enable: bool) -> (r: Result<&Self, Error>)
        ensures
            final(e).calls() == old(e).calls().push(
                CallModel::SetMulticastLoopback { session: self.spec_handle(), enable, result: r is Ok },
            ),
            chained(r, self, r is Ok),
    {
        if e.set_multicast_loopback(self.handle, enable) {
            Ok(self)
        } else {
            Err(Error::failed("Failed to set multicast loopback"))
        }
    }

    /// Restarts the current watermark; `OperationFailed` when there is none to anchor it.
    pub fn reset_watermark<E: Native>(&self, e: &mut E) -> (r: Result<(), Error>)
        ensures
            final(e).calls() == old(e).calls().push(
                CallModel::ResetWatermark { session: self.spec_handle(), result: r is Ok },
            ),
            done(r, r is Ok),
    {
        if e.reset_watermark(self.handle) {
            Ok(())
        } else {
            Err(Error::failed("Failed to reset watermark"))
        }
    }

    /// Drops the current watermark; always succeeds.
    pub fn cancel_watermark<E: Native>(&self, e: &mut E)
        ensures
            final(e).calls() == old(e).calls().push(
                CallModel::CancelWatermark { session: self.spec_handle() },
            ),
    {
        e.cancel_watermark(self.handle)
    }

    /// Drops the pending command; always succeeds.
    pub fn cancel_command<E: Native>(&self, e: &mut E)
        ensures
            final(e).calls() == old(e).calls().push(
                CallModel::CancelCommand { session: self.spec_handle() },
            ),
    {
        e.cancel_command(self.handle)
    }

    /// Names the interface multicast traffic uses; `OperationFailed` when refused. `InvalidString` for text with a NUL, without asking the engine.
    pub fn set_multicast_interface<E: Native>(&self, e: &mut E, interface_name: &str) -> (r: Result<&Self, Error>)
        ensures
            !c_text(interface_name@) ==> final(e).calls() == old(e).calls()
                && r == Err::<&Session, Error>(Error::InvalidString),
            c_text(interface_name@) ==> final(e).calls() == old(e).calls().push(
                CallModel::SetMulticastInterface { session: self.spec_handle(), interface: interface_name@, result: r is Ok },
            ) && chained(r, self, r is Ok),
    {
        if !is_c_text(interface_name) {
            return Err(Error::InvalidString);
        }
        if e.set_multicast_interface(self.handle, interface_name) {
            Ok(self)
        } else {
            Err(Error::failed("Failed to set multicast interface"))
        }
    }

    /// Sets the source of source-specific multicast; `OperationFailed` when refused. `InvalidString` for text with a NUL, without asking the engine.
    pub fn set_ssm<E: Native>(&self, e: &mut E, source_address: &str) -> (r: Result<&Self, Error>)
        ensures
            !c_text(source_address@) ==> final(e).calls() == old(e).calls()
                && r == Err::<&Session, Error>(Error::InvalidString),
            c_text(source_address@) ==> final(e).calls() == old(e).calls().push(
                CallModel::SetSsm { session: self.spec_handle(), source: source_address@, result: r is Ok },
            ) && chained(r, self, r is Ok),
    {
        if !is_c_text(source_address) {
            return Err(Error::InvalidString);
        }
        if e.set_ssm(self.handle, source_address) {
            Ok(self)
        } else {
            Err(Error::failed("Failed to set SSM source address"))
        }
    }

    /// Whether `address` is a unicast address; text with a NUL is not, and
    /// is not shown to the engine.
    pub fn is_unicast_address<E: Native>(e: &mut E, address: &str) -> (r: bool)
        ensures
            !c_text(address@) ==> final(e).calls() == old(e).calls() && !r,
            c_text(address@) ==> final(e).calls() == old(e).calls().push(
                CallModel::IsUnicastAddress { address: address@, result: r },
            ),
    {
        if !is_c_text(address) {
            return false;
        }
        e.is_unicast_address(address)
    }

    /// Queues a file for sending, with optional info, as an owned object;
    /// `InvalidString` for a path with a NUL, without asking the engine;
    /// `FileError` when the engine cannot enqueue it.
    pub fn file_enqueue<E: Native>(&self, e: &mut E, file_path: &str, info: Option<&[u8]>) -> (r: Result<Object, Error>)
        requires
            info_fits(info),
        ensures
            !c_text(file_path@) ==> final(e).calls() == old(e).calls()
                && r == Err::<Object, Error>(Error::InvalidString),
            c_text(file_path@) ==> {
                &&& final(e).calls() == old(e).calls().push(
                    CallModel::FileEnqueue {
                        session: self.spec_handle(),
                        path: file_path@,
                        info: bytes_of(info),
                        result: object_handle_of(r),
                    },
                )
                &&& enqueued(r)
                &&& r is Err ==> r->Err_0 is FileError
            },
    {
        if !is_c_text(file_path) {
            return Err(Error::InvalidString);
        }
        let handle = e.file_enqueue(self.handle, file_path, info);
        if handle == NORM_OBJECT_INVALID {
            Err(Error::file("Failed to enqueue file"))
        } else {
            Ok(Object::from_handle(handle))
        }
    }

    /// Queues a buffer for sending, with optional info, as an owned object;
    /// `OperationFailed` when the engine cannot enqueue it (for example when
    /// the sender role is not started). No info and empty info differ.
    pub fn data_enqueue<E: Native>(&self, e: &mut E, data: &[u8], info: Option<&[u8]>) -> (r: Result<Object, Error>)
        requires
            data@.len() <= u32::MAX,
            info_fits(info),
        ensures
            final(e).calls() == old(e).calls().push(
                CallModel::DataEnqueue {
                    session: self.spec_handle(),
                    data: data@,
                    info: bytes_of(info),
                    result: object_handle_of(r),
                },
            ),
            enqueued(r),
            r is Err ==> r->Err_0 is OperationFailed,
    {
        let handle = e.data_enqueue(self.handle, data, info);
        if handle == NORM_OBJECT_INVALID {
            Err(Error::failed("Failed to enqueue data"))
        } else {
            Ok(Object::from_handle(handle))
        }
    }

    /// Opens a stream for sending, with optional info, as an owned object;
    /// `OperationFailed` when the engine cannot open it.
    pub fn stream_open<E: Native>(&self, e: &mut E, buffer_size: u32, info: Option<&[u8]>) -> (r: Result<Object, Error>)
        requires
            info_fits(info),
        ensures
            final(e).calls() == old(e).calls().push(
                CallModel::StreamOpen {
                    session: self.spec_handle(),
                    buffer_size,
                    info: bytes_of(info),
                    result: object_handle_of(r),
                },
            ),
            enqueued(r),
            r is Err ==> r->Err_0 is OperationFailed,
    {
        let handle = e.stream_open(self.handle, buffer_size, info);
        if handle == NORM_OBJECT_INVALID {
            Err(Error::failed("Failed to open stream"))
        } else {
            Ok(Object::from_handle(handle))
        }
    }

    /// Asks for acknowledgment up to `object`; `OperationFailed` when the
    /// engine cannot anchor the watermark there.
    pub fn set_watermark<E: Native>(&self, e: &mut E, object: &Object, override_flush: bool) -> (r: Result<(), Error>)
        ensures
            final(e).calls() == old(e).calls().push(
                CallModel::SetWatermark {
                    session: self.spec_handle(),
                    object: object.spec_handle(),
                    override_flush,
                    result: r is Ok,
                },
            ),
            done(r, r is Ok),
    {
        if e.set_watermark(self.handle, object.handle(), override_flush) {
            Ok(())
        } else {
            Err(Error::failed("Failed to set watermark"))
        }
    }

    /// Sends an out-of-band command to the receivers; `OperationFailed` when refused.
    pub fn send_command<E: Native>(&self, e: &mut E, command: &[u8], robust: bool) -> (r: Result<(), Error>)
        requires
            command@.len() <= u32::MAX,
        ensures
            final(e).calls() == old(e).calls().push(
                CallModel::SendCommand {
                    session: self.spec_handle(),
                    command: command@,
                    robust,
                    result: r is Ok,
                },
            ),
            done(r, r is Ok),
    {
        if e.send_command(self.handle, command, robust) {
            Ok(())
        } else {
            Err(Error::failed("Failed to send command"))
        }
    }

    /// Ends the session: the engine tears it down. The wrapper is consumed.
    pub fn destroy<E: Native>(self, e: &mut E)
        ensures
            final(e).calls() == old(e).calls().push(CallModel::DestroySession { session: self.spec_handle() }),
    {
        e.destroy_session(self.handle)
    }
}

} // verus!
