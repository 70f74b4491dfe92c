//! Wrapper of a transport object's handle: a data buffer, a file or a stream.
use vstd::prelude::*;
use crate::error::Error;
use crate::native::{extends, since, Call, CallModel, Native};
use crate::node::Node;
use crate::types::{FlushMode, ObjectType};

verus! {

/// A transport object. The wrapper is either owned, and then releases its
/// reference when disposed, or borrowed, and then never releases it. Which
/// one is fixed at construction.
#[derive(Debug)]
pub struct Object {
    handle: u64,
    owned: bool,
}

/// `d` opens with a query of the kind of object `h`.
pub open spec fn kind_query(d: Seq<CallModel>, h: u64) -> bool {
    &&& d.len() >= 1
    &&& d[0] is ObjectGetType
    &&& d[0]->ObjectGetType_object == h
}

/// The kind that the query opening `d` reported.
pub open spec fn queried_kind(d: Seq<CallModel>) -> ObjectType {
    ObjectType::from_raw(d[0]->ObjectGetType_result)
}

/// A stream-only operation on object `h`: the kind query, followed by `op`
/// when the object is a stream and by nothing otherwise.
pub open spec fn stream_only(d: Seq<CallModel>, h: u64, op: CallModel) -> bool {
    &&& kind_query(d, h)
    &&& if queried_kind(d) == ObjectType::Stream {
        d == seq![d[0], op]
    } else {
        d.len() == 1
    }
}

/// How a stream-only operation on `d` answers: with `InvalidParameter`
/// exactly when the queried kind is not a stream.
pub open spec fn stream_guard<T>(d: Seq<CallModel>, r: Result<T, Error>) -> bool {
    queried_kind(d) != ObjectType::Stream <==> r == Err::<T, Error>(Error::InvalidParameter)
}

/// How many bytes a read into a buffer of `len` bytes asks for.
pub open spec fn read_cap(len: nat) -> u32 {
    if len > u32::MAX {
        u32::MAX
    } else {
        len as u32
    }
}

/// How many times `d` releases object `h`.
pub open spec fn object_releases(d: Seq<CallModel>, h: u64) -> nat
    decreases d.len(),
{
    if d.len() == 0 {
        0
    } else {
        object_releases(d.drop_last(), h) + if d.last() == (CallModel::ObjectRelease { object: h }) {
            1nat
        } else {
            0nat
        }
    }
}

/// What reading the info of object `h` invokes (`d`) and answers (`r`): an
/// object without info, or with info of length zero, gives an empty buffer;
/// otherwise the bytes the engine copies out, and `OperationFailed` when it
/// copies none.
pub open spec fn info_read(d: Seq<CallModel>, h: u64, r: Result<Vec<u8>, Error>) -> bool {
    &&& d.len() >= 1
    &&& d[0] is ObjectHasInfo
    &&& d[0]->ObjectHasInfo_object == h
    &&& if !d[0]->ObjectHasInfo_result {
        d.len() == 1 && r is Ok && r->Ok_0@ == Seq::<u8>::empty()
    } else {
        &&& d.len() >= 2
        &&& d[1] is ObjectGetInfoLength
        &&& d[1]->ObjectGetInfoLength_object == h
        &&& if d[1]->ObjectGetInfoLength_result == 0 {
            d.len() == 2 && r is Ok && r->Ok_0@ == Seq::<u8>::empty()
        } else {
            &&& d.len() == 3
            &&& d[2] is ObjectGetInfo
            &&& d[2]->ObjectGetInfo_object == h
            &&& d[2]->ObjectGetInfo_max == d[1]->ObjectGetInfoLength_result
            &&& if d[2]->ObjectGetInfo_result.len() == 0 {
                r is Err && r->Err_0 is OperationFailed
            } else {
                r is Ok && r->Ok_0@ == d[2]->ObjectGetInfo_result
            }
        }
    }
}

impl Object {
    /// The native handle.
    pub closed spec fn spec_handle(&self) -> u64 {
        self.handle
    }

    /// Whether disposing of the wrapper releases the handle.
    pub closed spec fn spec_owned(&self) -> bool {
        self.owned
    }

    /// What disposing of the wrapper invokes: one release if owned, nothing otherwise.
    pub open spec fn disposal(&self) -> Seq<CallModel> {
        if self.spec_owned() {
            seq![CallModel::ObjectRelease { object: self.spec_handle() }]
        } else {
            seq![]
        }
    }

    /// Takes ownership of a reference to an object.
    pub fn from_handle(handle: u64) -> (r: Object)
        ensures
            r.spec_handle() == handle,
            r.spec_owned(),
    {
        Object { handle, owned: true }
    }

    /// Observes an object the engine manages, without taking a reference.
    pub fn from_handle_unowned(handle: u64) -> (r: Object)
        ensures
            r.spec_handle() == handle,
            !r.spec_owned(),
    {
        Object { handle, owned: false }
    }

    /// The native handle.
    pub fn handle(&self) -> (r: u64)
        ensures
            r == self.spec_handle(),
    {
        self.handle
    }

    /// Whether disposing of the wrapper releases the handle.
    pub fn is_owned(&self) -> (r: bool)
        ensures
            r == self.spec_owned(),
    {
        self.owned
    }

    /// The object's kind, as the engine reports it.
    pub fn get_type<E: Native>(&self, e: &mut E) -> (r: ObjectType)
        ensures
            extends(old(e).calls(), final(e).calls()),
            since(old(e).calls(), final(e).calls()).len() == 1,
            kind_query(since(old(e).calls(), final(e).calls()), self.spec_handle()),
            r == queried_kind(since(old(e).calls(), final(e).calls())),
    {
        let ghost before = e.calls();
        let raw = e.object_get_type(self.handle);
        assert(since(before, e.calls()) =~= seq![e.calls().last()]);
        ObjectType::from(raw)
    }

    /// Whether the object carries info.
    pub fn has_info<E: Native>(&self, e: &mut E) -> (r: bool)
        ensures
            final(e).calls() == old(e).calls().push(
                CallModel::ObjectHasInfo { object: self.spec_handle(), result: r },
            ),
    {
        e.object_has_info(self.handle)
    }

    /// The object's info; empty, and no error, when it has none.
    pub fn get_info<E: Native>(&self, e: &mut E) -> (r: Result<Vec<u8>, Error>)
        ensures
            extends(old(e).calls(), final(e).calls()),
            info_read(since(old(e).calls(), final(e).calls()), self.spec_handle(), r),
    {
        let ghost before = e.calls();
        let h = self.handle;
        if !e.object_has_info(h) {
            assert(since(before, e.calls()) =~= seq![e.calls().last()]);
            return Ok(Vec::new());
        }
        let ghost c0 = e.calls().last();
        let len = e.object_get_info_length(h);
        if len == 0 {
            assert(since(before, e.calls()) =~= seq![c0, e.calls().last()]);
            return Ok(Vec::new());
        }
        let ghost c1 = e.calls().last();
        let info = e.object_get_info(h, len);
        assert(since(before, e.calls()) =~= seq![c0, c1, e.calls().last()]);
        if info.len() == 0 {
            Err(Error::failed("Failed to get info data"))
        } else {
            Ok(info)
        }
    }

    /// The object's size in bytes.
    pub fn size<E: Native>(&self, e: &mut E) -> (r: i64)
        ensures
            final(e).calls() == old(e).calls().push(
                CallModel::ObjectGetSize { object: self.spec_handle(), result: r },
            ),
    {
        e.object_get_size(self.handle)
    }

    /// Bytes of the object not yet sent or received.
    pub fn bytes_pending<E: Native>(&self, e: &mut E) -> (r: i64)
        ensures
            final(e).calls() == old(e).calls().push(
                CallModel::ObjectGetBytesPending { object: self.spec_handle(), result: r },
            ),
    {
        e.object_get_bytes_pending(self.handle)
    }

    /// The buffer of a data object: `InvalidParameter` for any other kind,
    /// `NullPointer` when the engine has no buffer.
    pub fn access_data<E: Native>(&self, e: &mut E) -> (r: Result<Vec<u8>, Error>)
        ensures
            extends(old(e).calls(), final(e).calls()),
            ({
                let d = since(old(e).calls(), final(e).calls());
                &&& kind_query(d, self.spec_handle())
                &&& if queried_kind(d) != ObjectType::Data {
                    d.len() == 1 && r == Err::<Vec<u8>, Error>(Error::InvalidParameter)
                } else {
                    &&& d.len() == 2
                    &&& d[1] is DataAccessData
                    &&& d[1]->DataAccessData_object == self.spec_handle()
                    &&& match d[1]->DataAccessData_result {
                        Some(bytes) => r is Ok && r->Ok_0@ == bytes,
                        None => r == Err::<Vec<u8>, Error>(Error::NullPointer),
                    }
                }
            }),
    {
        let ghost before = e.calls();
        let kind = self.get_type(e);
        if kind != ObjectType::Data {
            return Err(Error::InvalidParameter);
        }
        let ghost c0 = e.calls().last();
        let data = e.data_access_data(self.handle);
        assert(since(before, e.calls()) =~= seq![c0, e.calls().last()]);
        match data {
            Some(bytes) => Ok(bytes),
            None => Err(Error::NullPointer),
        }
    }

    /// Aborts sending or receiving the object.
    pub fn cancel<E: Native>(&self, e: &mut E)
        ensures
            final(e).calls() == old(e).calls().push(CallModel::ObjectCancel { object: self.spec_handle() }),
    {
        e.object_cancel(self.handle)
    }

    /// The node that sent the object, borrowed; `InvalidHandle` when the
    /// engine knows none.
    pub fn get_sender<E: Native>(&self, e: &mut E) -> (r: Result<Node, Error>)
        ensures
            final(e).calls().len() == old(e).calls().len() + 1,
            final(e).calls().drop_last() == old(e).calls(),
            final(e).calls().last() is ObjectGetSender,
            final(e).calls().last()->ObjectGetSender_object == self.spec_handle(),
            ({
                let h = final(e).calls().last()->ObjectGetSender_result;
                if h == crate::native::NORM_NODE_INVALID {
                    r == Err::<Node, Error>(Error::InvalidHandle)
                } else {
                    r is Ok && r->Ok_0.spec_handle() == h && !r->Ok_0.spec_owned()
                }
            }),
    {
        let sender = e.object_get_sender(self.handle);
        assert(e.calls().drop_last() =~= old(e).calls());
        if sender == crate::native::NORM_NODE_INVALID {
            Err(Error::InvalidHandle)
        } else {
            Ok(Node::from_handle_unowned(sender))
        }
    }

    /// Adds a reference to the object. It is not tied to the wrapper: the
    /// caller owes a matching [`Object::release`].
    pub fn retain<E: Native>(&self, e: &mut E)
        ensures
            final(e).calls() == old(e).calls().push(CallModel::ObjectRetain { object: self.spec_handle() }),
    {
        e.object_retain(self.handle)
    }

    /// Drops a reference to the object, independently of disposal.
    pub fn release<E: Native>(&self, e: &mut E)
        ensures
            final(e).calls() == old(e).calls().push(CallModel::ObjectRelease { object: self.spec_handle() }),
    {
        e.object_release(self.handle)
    }

    /// Writes bytes to a stream and returns how many it took;
    /// `InvalidParameter` unless the object is a stream.
    pub fn stream_write<E: Native>(&self, e: &mut E, data: &[u8]) -> (r: Result<usize, Error>)
        requires
            data@.len() <= u32::MAX,
        ensures
            extends(old(e).calls(), final(e).calls()),
            stream_only(
                since(old(e).calls(), final(e).calls()),
                self.spec_handle(),
                CallModel::StreamWrite { object: self.spec_handle(), data: data@, result: r->Ok_0 as u32 },
            ),
            stream_guard(since(old(e).calls(), final(e).calls()), r),
            queried_kind(since(old(e).calls(), final(e).calls())) == ObjectType::Stream ==> r is Ok,
    {
        let ghost before = e.calls();
        if self.get_type(e) != ObjectType::Stream {
            return Err(Error::InvalidParameter);
        }
        let ghost c0 = e.calls().last();
        let written = e.stream_write(self.handle, data);
        assert(since(before, e.calls()) =~= seq![c0, e.calls().last()]);
        Ok(written as usize)
    }

    /// Flushes a stream, optionally marking the end of a message;
    /// `InvalidParameter` unless the object is a stream.
    pub fn stream_flush<E: Native>(&self, e: &mut E, eom: bool, flush_mode: FlushMode) -> (r: Result<(), Error>)
        ensures
            extends(old(e).calls(), final(e).calls()),
            stream_only(
                since(old(e).calls(), final(e).calls()),
                self.spec_handle(),
                CallModel::StreamFlush { object: self.spec_handle(), eom, mode: flush_mode.raw() },
            ),
            stream_guard(since(old(e).calls(), final(e).calls()), r),
            queried_kind(since(old(e).calls(), final(e).calls())) == ObjectType::Stream ==> r is Ok,
    {
        let ghost before = e.calls();
        if self.get_type(e) != ObjectType::Stream {
            return Err(Error::InvalidParameter);
        }
        let ghost c0 = e.calls().last();
        e.stream_flush(self.handle, eom, u32::from(flush_mode));
        assert(since(before, e.calls()) =~= seq![c0, e.calls().last()]);
        Ok(())
    }

    /// Marks the end of a message in a stream; `InvalidParameter` unless the
    /// object is a stream.
    pub fn stream_mark_eom<E: Native>(&self, e: &mut E) -> (r: Result<(), Error>)
        ensures
            extends(old(e).calls(), final(e).calls()),
            stream_only(
                since(old(e).calls(), final(e).calls()),
                self.spec_handle(),
                CallModel::StreamMarkEom { object: self.spec_handle() },
            ),
            stream_guard(since(old(e).calls(), final(e).calls()), r),
            queried_kind(since(old(e).calls(), final(e).calls())) == ObjectType::Stream ==> r is Ok,
    {
        let ghost before = e.calls();
        if self.get_type(e) != ObjectType::Stream {
            return Err(Error::InvalidParameter);
        }
        let ghost c0 = e.calls().last();
        e.stream_mark_eom(self.handle);
        assert(since(before, e.calls()) =~= seq![c0, e.calls().last()]);
        Ok(())
    }

    /// Closes a stream, gracefully or at once; `InvalidParameter` unless the
    /// object is a stream.
    pub fn stream_close<E: Native>(&self, e: &mut E, graceful: bool) -> (r: Result<(), Error>)
        ensures
            extends(old(e).calls(), final(e).calls()),
            stream_only(
                since(old(e).calls(), final(e).calls()),
                self.spec_handle(),
                CallModel::StreamClose { object: self.spec_handle(), graceful },
            ),
            stream_guard(since(old(e).calls(), final(e).calls()), r),
            queried_kind(since(old(e).calls(), final(e).calls())) == ObjectType::Stream ==> r is Ok,
    {
        let ghost before = e.calls();
        if self.get_type(e) != ObjectType::Stream {
            return Err(Error::InvalidParameter);
        }
        let ghost c0 = e.calls().last();
        e.stream_close(self.handle, graceful);
        assert(since(before, e.calls()) =~= seq![c0, e.calls().last()]);
        Ok(())
    }

    /// Reads from a stream into the front of `buffer` and returns how many
    /// bytes came; `InvalidParameter` unless the object is a stream,
    /// `OperationFailed` when the engine reports a failed read. At most
    /// `u32::MAX` bytes are asked for at once.
    pub fn stream_read<E: Native>(&self, e: &mut E, buffer: &mut [u8]) -> (r: Result<usize, Error>)
        ensures
            extends(old(e).calls(), final(e).calls()),
            stream_guard(since(old(e).calls(), final(e).calls()), r),
            ({
                let d = since(old(e).calls(), final(e).calls());
                let h = self.spec_handle();
                &&& kind_query(d, h)
                &&& if queried_kind(d) != ObjectType::Stream {
                    d.len() == 1 && final(buffer)@ == old(buffer)@
                } else {
                    &&& d.len() == 2
                    &&& d[1] is StreamRead
                    &&& d[1]->StreamRead_object == h
                    &&& d[1]->StreamRead_max == read_cap(old(buffer)@.len())
                    &&& match d[1]->StreamRead_result {
                        Some(bytes) => {
                            &&& r == Ok::<usize, Error>(bytes.len() as usize)
                            &&& final(buffer)@ == bytes + old(buffer)@.skip(bytes.len() as int)
                        },
                        None => {
                            &&& r is Err
                            &&& r->Err_0 is OperationFailed
                            &&& final(buffer)@ == old(buffer)@
                        },
                    }
                }
            }),
    {
        let ghost before = e.calls();
        if self.get_type(e) != ObjectType::Stream {
            return Err(Error::InvalidParameter);
        }
        let ghost c0 = e.calls().last();
        let max: u32 = if buffer.len() > u32::MAX as usize {
            u32::MAX
        } else {
            buffer.len() as u32
        };
        let read = e.stream_read(self.handle, max);
        assert(since(before, e.calls()) =~= seq![c0, e.calls().last()]);
        match read {
            Some(bytes) => {
                let ghost orig = buffer@;
                let n = bytes.len();
                let mut i: usize = 0;
                while i < n
                    invariant
                        n == bytes@.len(),
                        n <= orig.len(),
                        i <= n,
                        buffer@.len() == orig.len(),
                        forall|j: int| 0 <= j < i ==> buffer@[j] == bytes@[j],
                        forall|j: int| i <= j < orig.len() ==> buffer@[j] == orig[j],
                    decreases n - i,
                {
                    buffer[i] = bytes[i];
                    i = i + 1;
                }
                assert(buffer@ =~= bytes@ + orig.skip(n as int));
                Ok(n)
            },
            None => Err(Error::failed("Failed to read from stream")),
        }
    }

    /// Whether a stream takes more bytes now; `InvalidParameter` unless the
    /// object is a stream.
    pub fn stream_has_vacancy<E: Native>(&self, e: &mut E) -> (r: Result<bool, Error>)
        ensures
            extends(old(e).calls(), final(e).calls()),
            stream_only(
                since(old(e).calls(), final(e).calls()),
                self.spec_handle(),
                CallModel::StreamHasVacancy { object: self.spec_handle(), result: r->Ok_0 },
            ),
            stream_guard(since(old(e).calls(), final(e).calls()), r),
            queried_kind(since(old(e).calls(), final(e).calls())) == ObjectType::Stream ==> r is Ok,
    {
        let ghost before = e.calls();
        if self.get_type(e) != ObjectType::Stream {
            return Err(Error::InvalidParameter);
        }
        let ghost c0 = e.calls().last();
        let vacancy = e.stream_has_vacancy(self.handle);
        assert(since(before, e.calls()) =~= seq![c0, e.calls().last()]);
        Ok(vacancy)
    }

    /// Skips to the next message start in a stream and says whether one was
    /// found; `InvalidParameter` unless the object is a stream.
    pub fn stream_seek_msg_start<E: Native>(&self, e: &mut E) -> (r: Result<bool, Error>)
        ensures
            extends(old(e).calls(), final(e).calls()),
            stream_only(
                since(old(e).calls(), final(e).calls()),
                self.spec_handle(),
                CallModel::StreamSeekMsgStart { object: self.spec_handle(), result: r->Ok_0 },
            ),
            stream_guard(since(old(e).calls(), final(e).calls()), r),
            queried_kind(since(old(e).calls(), final(e).calls())) == ObjectType::Stream ==> r is Ok,
    {
        let ghost before = e.calls();
        if self.get_type(e) != ObjectType::Stream {
            return Err(Error::InvalidParameter);
        }
        let ghost c0 = e.calls().last();
        let found = e.stream_seek_msg_start(self.handle);
        assert(since(before, e.calls()) =~= seq![c0, e.calls().last()]);
        Ok(found)
    }

    /// Ends the wrapper's life: releases the reference if owned, and does
    /// nothing if borrowed. The wrapper is consumed, so this happens once.
    pub fn dispose<E: Native>(self, e: &mut E)
        ensures
            final(e).calls() == old(e).calls() + self.disposal(),
    {
        if self.owned {
            e.object_release(self.handle);
        } else {
            assert(old(e).calls() + self.disposal() =~= old(e).calls());
        }
    }
}

/// Disposing of an owned object releases its reference exactly once;
/// disposing of a borrowed object releases nothing.
pub proof fn object_disposal_releases(o: Object)
    ensures
        object_releases(o.disposal(), o.spec_handle()) == if o.spec_owned() {
            1nat
        } else {
            0nat
        },
{
    let d = o.disposal();
    if o.spec_owned() {
        assert(d.drop_last() =~= Seq::<CallModel>::empty());
    }
    assert(object_releases(Seq::<CallModel>::empty(), o.spec_handle()) == 0);
}

} // verus!
