//! What holds of every run of a connection, proved over the state machine of
//! [`IoView`] and the two pumps.

use crate::error::IoError;
use crate::flags::Flag;
use crate::io::Decoded;
use crate::read_task::{ReadAction, ReadEvent, ReadTaskView};
use crate::state::IoView;
use crate::write_task::{unwritten, IoWriteState, WriteAction, WriteEvent, WriteTaskView};
use vstd::prelude::*;

verus! {

/// One thing that happens to the read buffer.
pub enum ReadOp {
    /// A pass of the read pump in which the transport delivered these bytes.
    Pass(Seq<u8>),
    /// A pass of the read pump in which the transport delivered these bytes
    /// and then ended the stream.
    End(Seq<u8>),
    /// The dispatcher's codec takes so many bytes from the front, or all
    /// there are.
    Consume(nat),
}

/// One thing that happens to the write buffer.
pub enum WriteOp {
    /// The dispatcher writes an encoded frame.
    Send(Seq<u8>),
    /// A flush of the write pump in which the transport took so many bytes,
    /// or all there are.
    Flush(nat),
}

impl IoView {
    /// A pass of the read pump on a transparent chain: the pump takes the
    /// read buffer, the transport puts `chunk` behind its bytes, and the pump
    /// releases it.
    pub open spec fn read_pass(self, chunk: Seq<u8>) -> IoView {
        (IoView { read: Seq::empty(), ..self }).release_read(self.read + chunk, chunk.len())
    }

    /// The codec takes `k` bytes from the front of the read buffer, or all
    /// there are.
    pub open spec fn consume(self, k: nat) -> IoView {
        self.decoded(unwritten(self.read, k), Decoded::Frame)
    }

    /// A flush of the write pump on a transparent chain: the pump takes the
    /// write buffer, the transport takes `k` bytes from its front, or all
    /// there are, and the pump releases the rest.
    pub open spec fn flush(self, k: nat) -> IoView {
        (IoView { write: Seq::empty(), ..self }).release_write(unwritten(self.write, k))
    }
}

/// The first `k` items of `s`, or all there are.
pub open spec fn front(s: Seq<u8>, k: nat) -> Seq<u8> {
    if k >= s.len() {
        s
    } else {
        s.take(k as int)
    }
}

/// All bytes that the transport delivered in `ops`, in order.
pub open spec fn received(ops: Seq<ReadOp>) -> Seq<u8>
    decreases ops.len(),
{
    if ops.len() == 0 {
        Seq::empty()
    } else {
        match ops.last() {
            ReadOp::Pass(chunk) => received(ops.drop_last()) + chunk,
            ReadOp::End(chunk) => received(ops.drop_last()) + chunk,
            ReadOp::Consume(_) => received(ops.drop_last()),
        }
    }
}

/// The connection after `ops`, and all bytes that the codec has taken.
pub open spec fn run_reads(io: IoView, ops: Seq<ReadOp>) -> (IoView, Seq<u8>)
    decreases ops.len(),
{
    if ops.len() == 0 {
        (io, Seq::empty())
    } else {
        let (prev, taken) = run_reads(io, ops.drop_last());
        match ops.last() {
            ReadOp::Pass(chunk) => (prev.read_pass(chunk), taken),
            ReadOp::End(chunk) => (prev.read_pass(chunk).read_closed(None), taken),
            ReadOp::Consume(k) => (prev.consume(k), taken + front(prev.read, k)),
        }
    }
}

/// All bytes that the dispatcher wrote in `ops`, in order.
pub open spec fn sent(ops: Seq<WriteOp>) -> Seq<u8>
    decreases ops.len(),
{
    if ops.len() == 0 {
        Seq::empty()
    } else {
        match ops.last() {
            WriteOp::Send(frame) => sent(ops.drop_last()) + frame,
            WriteOp::Flush(_) => sent(ops.drop_last()),
        }
    }
}

/// The connection after `ops`, and all bytes that the transport has taken.
pub open spec fn run_writes(io: IoView, ops: Seq<WriteOp>) -> (IoView, Seq<u8>)
    decreases ops.len(),
{
    if ops.len() == 0 {
        (io, Seq::empty())
    } else {
        let (prev, wire) = run_writes(io, ops.drop_last());
        match ops.last() {
            WriteOp::Send(frame) => (prev.written(frame), wire),
            WriteOp::Flush(k) => (prev.flush(k), wire + front(prev.write, k)),
        }
    }
}

/// Of the bytes that the transport delivers none is lost, repeated or moved:
/// after any passes of the read pump and any takes of the codec, what the
/// codec has taken followed by what waits in the read buffer is what waited
/// at the start followed by what the transport delivered.
pub proof fn lemma_reads_are_delivered(io: IoView, ops: Seq<ReadOp>)
    ensures
        run_reads(io, ops).1 + run_reads(io, ops).0.read == io.read + received(ops),
    decreases ops.len(),
{
    if ops.len() == 0 {
        assert(Seq::<u8>::empty() + io.read =~= io.read + Seq::<u8>::empty());
    } else {
        lemma_reads_are_delivered(io, ops.drop_last());
        let (prev, taken) = run_reads(io, ops.drop_last());
        let before = received(ops.drop_last());
        match ops.last() {
            ReadOp::Pass(chunk) => {
                assert(prev.read_pass(chunk).read =~= prev.read + chunk);
                assert(taken + (prev.read + chunk) =~= (taken + prev.read) + chunk);
                assert((io.read + before) + chunk =~= io.read + (before + chunk));
            },
            ReadOp::End(chunk) => {
                assert(prev.read_pass(chunk).read_closed(None).read =~= prev.read + chunk);
                assert(taken + (prev.read + chunk) =~= (taken + prev.read) + chunk);
                assert((io.read + before) + chunk =~= io.read + (before + chunk));
            },
            ReadOp::Consume(k) => {
                assert(front(prev.read, k) + unwritten(prev.read, k) =~= prev.read);
                assert((taken + front(prev.read, k)) + unwritten(prev.read, k) =~= taken
                    + prev.read);
            },
        }
    }
}

/// What is stated of every chain holds of the transparent one: what a
/// transparent chain makes of a release, of a sweep and of a step of either
/// pump is among what a chain may make of it.
pub proof fn lemma_transparent_chain_is_a_chain(
    io: IoView,
    bytes: Seq<u8>,
    n: nat,
    reader: ReadTaskView,
    read: ReadEvent,
    writer: WriteTaskView,
    write: WriteEvent,
)
    ensures
        io.maybe_swept(io.sweep()),
        io.read_release_step(bytes, io.release_read(bytes, n)),
        io.write_release_step(bytes, io.release_write(bytes)),
        io.init_shutdown().maybe_swept(io.shutdown()),
        reader.may_answer(io, read, reader.answers(io, read)),
        writer.may_answer(io, write, writer.answers(io, write)),
{
    assert forall|s: IoView| #[trigger] s.maybe_swept(s.sweep()) by {
        if s.has(Flag::IoFilters) && !s.closing() {
            assert(s.write_step(s) && s.sweep_ended(s.filters_done()));
        }
    }
    if bytes.len() > 0 {
        assert(io.read_released(bytes, n).maybe_swept(io.release_read(bytes, n)));
    }
    if reader.releases(io, read) {
        let buf = reader.buf.unwrap();
        let g = reader.new_bytes(buf.len());
        if buf.len() > 0 {
            assert(io.read_released(buf, g).maybe_swept(io.release_read(buf, g)));
        }
    }
}

/// A pass of the read pump is a pass of the model, and loses nothing: on a
/// transparent chain, where the pump may read, it takes the read buffer;
/// when the transport has put `chunk` behind its bytes and then would block,
/// or ends the stream, the pump hands the buffer back, so that what waited
/// for the dispatcher before the pass still waits, in front of `chunk`.
pub proof fn lemma_pump_pass_loses_nothing(io: IoView, chunk: Seq<u8>)
    requires
        !io.closing(),
        !io.has(Flag::RdBufFull),
    ensures
        ({
            let (pump, taken, action) = ReadTaskView::idle().step(io, ReadEvent::Poll);
            let filled = ReadTaskView { buf: Some(io.read + chunk), ..pump };
            let seen = ReadTaskView { seen_len: (io.read + chunk).len(), ..filled };
            &&& action == ReadAction::Read
            &&& pump.buf == Some(io.read)
            &&& filled.step(taken, ReadEvent::Pending) == (
                ReadTaskView::idle(),
                io.poll_read_ready().read_pass(chunk),
                ReadAction::Park,
            )
            &&& seen.step(taken, ReadEvent::Ready) == (
                ReadTaskView::finished(),
                io.poll_read_ready().read_pass(chunk).read_closed(None),
                ReadAction::Exit,
            )
            &&& filled.step(taken, ReadEvent::Pending).1.read == io.read + chunk
            &&& seen.step(taken, ReadEvent::Ready).1.read == io.read + chunk
        }),
{
    let asked = io.poll_read_ready();
    assert((io.read + chunk).len() == io.read.len() + chunk.len());
    assert(asked.read_pass(chunk).read =~= io.read + chunk);
    assert(asked.read_pass(chunk).read_closed(None).read =~= io.read + chunk);
}

/// The transport is given the bytes that the dispatcher wrote, in the order
/// in which it wrote them: after any writes of the dispatcher and any flushes
/// of the write pump, what the transport has taken followed by what waits in
/// the write buffer is what waited at the start followed by what the
/// dispatcher wrote.
pub proof fn lemma_writes_keep_order(io: IoView, ops: Seq<WriteOp>)
    ensures
        run_writes(io, ops).1 + run_writes(io, ops).0.write == io.write + sent(ops),
    decreases ops.len(),
{
    if ops.len() == 0 {
        assert(Seq::<u8>::empty() + io.write =~= io.write + Seq::<u8>::empty());
    } else {
        lemma_writes_keep_order(io, ops.drop_last());
        let (prev, wire) = run_writes(io, ops.drop_last());
        let before = sent(ops.drop_last());
        match ops.last() {
            WriteOp::Send(frame) => {
                assert(prev.written(frame).write =~= prev.write + frame);
                assert(wire + (prev.write + frame) =~= (wire + prev.write) + frame);
                assert((io.write + before) + frame =~= io.write + (before + frame));
            },
            WriteOp::Flush(k) => {
                assert(prev.flush(k).write =~= unwritten(prev.write, k));
                assert(front(prev.write, k) + unwritten(prev.write, k) =~= prev.write);
                assert((wire + front(prev.write, k)) + unwritten(prev.write, k) =~= wire
                    + prev.write);
            },
        }
    }
}

/// Write back-pressure follows the write buffer: where `WrBackpressure` is on
/// exactly while the buffer is longer than twice the write high watermark,
/// it is so again after a write of the dispatcher and after a flush of the
/// write pump.
pub proof fn lemma_backpressure_follows_buffer(io: IoView, frame: Seq<u8>, k: nat)
    requires
        io.backpressure_ok(),
    ensures
        io.written(frame).backpressure_ok(),
        io.flush(k).backpressure_ok(),
        IoView::init(io.pool).backpressure_ok(),
{
    assert(io.write.len() == 0 ==> io.write =~= Seq::<u8>::empty());
}

/// Write back-pressure follows the write buffer through every run of writes
/// and flushes.
pub proof fn lemma_backpressure_follows_runs(io: IoView, ops: Seq<WriteOp>)
    requires
        io.backpressure_ok(),
    ensures
        run_writes(io, ops).0.backpressure_ok(),
    decreases ops.len(),
{
    if ops.len() > 0 {
        lemma_backpressure_follows_runs(io, ops.drop_last());
        let prev = run_writes(io, ops.drop_last()).0;
        match ops.last() {
            WriteOp::Send(frame) => lemma_backpressure_follows_buffer(prev, frame, 0),
            WriteOp::Flush(k) => lemma_backpressure_follows_buffer(prev, Seq::empty(), k),
        }
    }
}

/// The read pause follows the read buffer: when the read pump, which runs
/// only while `RdBufFull` is off, releases a buffer to which the transport
/// has added bytes, `RdBufFull` is on afterwards exactly if the read buffer
/// is longer than the read high watermark.
pub proof fn lemma_read_pause_follows_buffer(io: IoView, buf: Seq<u8>, nbytes: nat)
    requires
        !io.has(Flag::RdBufFull),
        nbytes > 0,
        buf.len() > 0,
    ensures
        io.release_read(buf, nbytes).has(Flag::RdBufFull) <==> io.release_read(
            buf,
            nbytes,
        ).read_above(),
        io.release_read(buf, nbytes).has(Flag::RdReady),
{
}

/// A stopped connection holds no waker, and keeps none: stopping wakes all
/// three tasks, and in a well-formed block no step lets a task leave its
/// waker once `IoStopped` is set.
pub proof fn lemma_stopped_holds_no_waker(
    io: IoView,
    err: Option<IoError>,
    bytes: Seq<u8>,
    n: nat,
    outcome: Decoded,
)
    requires
        io.wf(),
    ensures
        io.stop(err).has(Flag::IoStopped) && io.stop(err).no_waker_held(),
        io.stop(err).wf(),
        io.want_read().wf(),
        io.init_shutdown().wf(),
        io.want_shutdown(err).wf(),
        io.filters_done().wf(),
        io.sweep().wf(),
        io.poll_read_ready().wf(),
        io.poll_write_ready().wf(),
        io.read_released(bytes, n).wf(),
        io.write_released(bytes).wf(),
        io.write_buffered(bytes).wf(),
        io.release_read(bytes, n).wf(),
        io.release_write(bytes).wf(),
        io.poll_dispatch_read().wf(),
        io.poll_status_update().wf(),
        io.keepalive_expired().wf(),
        io.stop_dispatcher().wf(),
        io.decoded(bytes, outcome).wf(),
        io.written(bytes).wf(),
        io.poll_flush(true).wf(),
        io.poll_flush(false).wf(),
        io.shutdown().wf(),
        IoView::init(io.pool).wf(),
{
}

/// The pumps leave the transport of a stopped connection alone: a read pump
/// that is polled between passes exits without a read, and a write pump that
/// is polled while it processes closes the transport, without a write or a
/// read, and exits. Neither leaves a waker.
pub proof fn lemma_stopped_pumps_exit(io: IoView, reader: ReadTaskView, writer: WriteTaskView)
    requires
        io.wf(),
        io.has(Flag::IoStopped),
        !reader.done,
        reader.buf.is_none(),
        writer.st == IoWriteState::Processing,
        writer.wait is Idle,
    ensures
        reader.step(io, ReadEvent::Poll).2 == ReadAction::Exit,
        reader.step(io, ReadEvent::Poll).0.done,
        reader.step(io, ReadEvent::Poll).1 == io,
        writer.step(io, WriteEvent::Poll).2 == WriteAction::Close,
        writer.step(io, WriteEvent::Poll).1 == io,
        writer.step(io, WriteEvent::Poll).0.step(io, WriteEvent::Closed).2 == WriteAction::Exit,
        writer.step(io, WriteEvent::Poll).0.step(io, WriteEvent::Closed).0.wait is Done,
        writer.step(io, WriteEvent::Poll).0.step(io, WriteEvent::Closed).1.no_waker_held(),
{
}

/// How a codec turns frames into bytes and back, as far as a round trip
/// needs it.
#[verifier::reject_recursive_types(T)]
pub struct CodecModel<T> {
    /// The bytes of a frame.
    pub encode: spec_fn(T) -> Seq<u8>,
    /// The frame at the front of some bytes and the number of bytes it took,
    /// or `None` where the bytes hold no whole frame.
    pub decode: spec_fn(Seq<u8>) -> Option<(T, nat)>,
}

impl<T> CodecModel<T> {
    /// The codec finds a frame again at the front of whatever follows it,
    /// takes exactly the frame's bytes, and finds nothing in no bytes.
    pub open spec fn round_trips(self) -> bool {
        &&& forall|x: T, rest: Seq<u8>|
            #[trigger] (self.decode)((self.encode)(x) + rest) == Some(
                (x, (self.encode)(x).len()),
            )
        &&& (self.decode)(Seq::empty()).is_none()
    }

    /// The bytes of some frames, one frame's behind the other's.
    pub open spec fn encode_all(self, frames: Seq<T>) -> Seq<u8>
        decreases frames.len(),
    {
        if frames.len() == 0 {
            Seq::empty()
        } else {
            (self.encode)(frames.first()) + self.encode_all(frames.drop_first())
        }
    }

    /// The frames that a receiver gets out of `bytes` in at most `fuel`
    /// receives: it decodes at the front, takes the frame's bytes out of the
    /// buffer, and goes on with what is left.
    pub open spec fn decode_all(self, bytes: Seq<u8>, fuel: nat) -> Seq<T>
        decreases fuel,
    {
        if fuel == 0 {
            Seq::empty()
        } else {
            match (self.decode)(bytes) {
                Some((x, used)) => seq![x] + self.decode_all(
                    unwritten(bytes, used),
                    (fuel - 1) as nat,
                ),
                None => Seq::empty(),
            }
        }
    }
}

/// A codec that round-trips gets the frames out of their encoding, all of
/// them and in order.
pub proof fn lemma_codec_round_trip<T>(codec: CodecModel<T>, frames: Seq<T>)
    requires
        codec.round_trips(),
    ensures
        codec.decode_all(codec.encode_all(frames), frames.len() + 1) == frames,
    decreases frames.len(),
{
    if frames.len() == 0 {
        assert(codec.decode_all(Seq::empty(), 1) =~= frames);
    } else {
        let x = frames.first();
        let rest = codec.encode_all(frames.drop_first());
        lemma_codec_round_trip(codec, frames.drop_first());
        assert(unwritten((codec.encode)(x) + rest, (codec.encode)(x).len()) =~= rest);
        assert(seq![x] + frames.drop_first() =~= frames);
    }
}

/// The service of the receiving side is handed the frames that the service
/// of the sending side wrote, all of them and in order, whatever the
/// transport does between them: the sender writes the frames' encodings, its
/// write pump flushes in pieces of any size until nothing waits, the
/// receiver's read pump takes what arrived, in passes of any size, and the
/// receiver decodes what waits in its read buffer.
pub proof fn lemma_frames_round_trip<T>(
    codec: CodecModel<T>,
    frames: Seq<T>,
    sender: IoView,
    writes: Seq<WriteOp>,
    receiver: IoView,
    reads: Seq<ReadOp>,
)
    requires
        codec.round_trips(),
        sender.write.len() == 0,
        receiver.read.len() == 0,
        sent(writes) == codec.encode_all(frames),
        run_writes(sender, writes).0.write.len() == 0,
        received(reads) == run_writes(sender, writes).1,
        run_reads(receiver, reads).1.len() == 0,
    ensures
        codec.decode_all(run_reads(receiver, reads).0.read, frames.len() + 1) == frames,
{
    lemma_writes_keep_order(sender, writes);
    lemma_reads_are_delivered(receiver, reads);
    lemma_codec_round_trip(codec, frames);
    let wire = run_writes(sender, writes).1;
    let left = run_writes(sender, writes).0.write;
    assert(left =~= Seq::<u8>::empty());
    assert(sender.write =~= Seq::<u8>::empty());
    assert(wire + left =~= wire);
    assert(sender.write + sent(writes) =~= sent(writes));
    let got = run_reads(receiver, reads).0.read;
    let taken = run_reads(receiver, reads).1;
    assert(taken =~= Seq::<u8>::empty());
    assert(receiver.read =~= Seq::<u8>::empty());
    assert(taken + got =~= got);
    assert(receiver.read + received(reads) =~= received(reads));
}

} // verus!
