use ntex_bytes::{BytesMut, PoolId};
use ntex_codec::{Decoder, Encoder};
use std::cell::RefCell;
use std::rc::Rc;
use std::sync::atomic::{AtomicUsize, Ordering};
use std::sync::Arc;
use std::task::{Wake, Waker};
use stream_io::dispatch::{DispatchItem, RecvError};
use stream_io::dispatcher::{DispatchEvent, Dispatcher, DispatcherState, RecvStep};
use stream_io::error::IoError;
use stream_io::filter::{Base, Handle, Io, IoStream};
use stream_io::flags::Flag;
use stream_io::io::{Decoded, IoStatusUpdate};
use stream_io::pool::MemoryPool;
use stream_io::read_task::{ReadAction, ReadEvent, ReadTask};
use stream_io::status::Poll;
use stream_io::tasks::{ReadContext, WriteContext};
use stream_io::write_task::{WriteAction, WriteEvent, WriteTask};

struct Count(AtomicUsize);

impl Wake for Count {
    fn wake(self: Arc<Self>) {
        self.0.fetch_add(1, Ordering::SeqCst);
    }
}

fn counting_waker() -> (Arc<Count>, Waker) {
    let count = Arc::new(Count(AtomicUsize::new(0)));
    (count.clone(), Waker::from(count))
}

fn woken(count: &Arc<Count>) -> usize {
    count.0.load(Ordering::SeqCst)
}

struct Capture(Rc<RefCell<Option<(ReadContext, WriteContext)>>>);

impl IoStream for Capture {
    fn start(self, read: ReadContext, write: WriteContext) -> Option<Box<dyn Handle>> {
        *self.0.borrow_mut() = Some((read, write));
        None
    }
}

fn connect() -> (Io<Base>, ReadContext, WriteContext) {
    let id = PoolId::DEFAULT;
    id.set_read_params(4096, 1024);
    id.set_write_params(4096, 1024);
    let slot = Rc::new(RefCell::new(None));
    let io = Io::new(Capture(slot.clone()), MemoryPool::new(id.pool_ref()));
    let (r, w) = slot.borrow_mut().take().unwrap();
    (io, r, w)
}

/// Frames with a length of four bytes, big end first, in front.
struct LengthCodec;

const MAX_FRAME: usize = 1 << 20;

impl Encoder for LengthCodec {
    type Item = Vec<u8>;
    type Error = String;

    fn encode(&self, item: Vec<u8>, dst: &mut BytesMut) -> Result<(), String> {
        if item.len() > MAX_FRAME {
            return Err("frame too long".to_string());
        }
        dst.extend_from_slice(&(item.len() as u32).to_be_bytes());
        dst.extend_from_slice(&item);
        Ok(())
    }
}

impl Decoder for LengthCodec {
    type Item = Vec<u8>;
    type Error = String;

    fn decode(&self, src: &mut BytesMut) -> Result<Option<Vec<u8>>, String> {
        if src.len() < 4 {
            return Ok(None);
        }
        let len = u32::from_be_bytes([src[0], src[1], src[2], src[3]]) as usize;
        if len > MAX_FRAME {
            return Err("frame too long".to_string());
        }
        if src.len() < 4 + len {
            return Ok(None);
        }
        let _ = src.split_to(4);
        Ok(Some(src.split_to(len).to_vec()))
    }
}

type Item = DispatchItem<Vec<u8>, String, String>;

fn recv(io: &mut Io<Base>, waker: &Waker) -> Poll<Result<Vec<u8>, RecvError<String>>> {
    loop {
        let mut buf = io.decode_begin();
        let res = match buf.as_mut() {
            Some(b) => LengthCodec.decode(b),
            None => Ok(None),
        };
        match res {
            Ok(Some(frame)) => {
                io.decode_end(buf, Decoded::Frame);
                return Poll::Ready(Ok(frame));
            }
            Ok(None) => {
                io.decode_end(buf, Decoded::NeedMore);
                match io.recv_after_decode::<String>(waker, None) {
                    RecvStep::Decode => continue,
                    RecvStep::Fail(e) => return Poll::Ready(Err(e)),
                    RecvStep::Park => return Poll::Pending,
                }
            }
            Err(e) => {
                io.decode_end(buf, Decoded::Failed);
                match io.recv_after_decode(waker, Some(e)) {
                    RecvStep::Fail(e) => return Poll::Ready(Err(e)),
                    _ => unreachable!(),
                }
            }
        }
    }
}

fn send(io: &mut Io<Base>, frame: Vec<u8>) -> Result<bool, String> {
    let mut buf = io.encode_begin();
    let res = LengthCodec.encode(frame, &mut buf);
    let on = io.encode_end(buf).unwrap();
    res.map(|_| on)
}

fn deliver(task: &mut ReadTask, io: &mut Io<Base>, waker: &Waker, chunks: &[&[u8]]) {
    assert_eq!(task.step(io, waker, ReadEvent::Poll), ReadAction::Read);
    for chunk in chunks {
        task.buf.as_mut().unwrap().extend_from_slice(chunk);
        assert_eq!(task.step(io, waker, ReadEvent::Ready), ReadAction::Read);
    }
    assert_eq!(task.step(io, waker, ReadEvent::Pending), ReadAction::Park);
}

fn flush_all(task: &mut WriteTask, io: &mut Io<Base>, waker: &Waker, piece: usize) -> (Vec<u8>, WriteAction) {
    let mut wire = Vec::new();
    let mut action = task.step(io, waker, WriteEvent::Poll);
    loop {
        match action {
            WriteAction::Write => {
                let chunk = task.chunk().to_vec();
                let n = piece.min(chunk.len());
                wire.extend_from_slice(&chunk[..n]);
                action = task.step(io, waker, WriteEvent::Wrote(n));
            }
            WriteAction::Flush => action = task.step(io, waker, WriteEvent::Flushed),
            WriteAction::ArmTimer(_) | WriteAction::Repoll => {
                action = task.step(io, waker, WriteEvent::Poll)
            }
            WriteAction::CheckTimer => action = task.step(io, waker, WriteEvent::TimerPending),
            other => return (wire, other),
        }
    }
}

#[test]
fn echo() {
    let (mut io, r, w) = connect();
    let (_c, waker) = counting_waker();
    let mut reader = ReadTask::new(r);
    let mut writer = WriteTask::new(w);
    let mut dispatcher = Dispatcher::new();

    deliver(
        &mut reader,
        &mut io,
        &waker,
        &[b"\x00\x00\x00\x05hel", b"lo\x00\x00", b"\x00\x05world"],
    );

    let mut seen = Vec::new();
    loop {
        match recv(&mut io, &waker) {
            Poll::Ready(res) => match dispatcher.on_recv::<_, _, String>(res) {
                Some(DispatchItem::Item(frame)) => {
                    seen.push(frame.clone());
                    assert!(dispatcher.call_started());
                    assert_eq!(send(&mut io, frame), Ok(false));
                    dispatcher.call_finished();
                }
                other => panic!("unexpected {:?}", other.and_then(|i: Item| i.fmt_debug())),
            },
            Poll::Pending => break,
        }
    }
    assert_eq!(seen, vec![b"hello".to_vec(), b"world".to_vec()]);
    assert_eq!(dispatcher.state(), DispatcherState::Processing);
    assert_eq!(dispatcher.inflight(), 0);

    let (wire, action) = flush_all(&mut writer, &mut io, &waker, 7);
    assert_eq!(wire, b"\x00\x00\x00\x05hello\x00\x00\x00\x05world");
    assert_eq!(action, WriteAction::Park);

    assert_eq!(reader.step(&mut io, &waker, ReadEvent::Poll), ReadAction::Read);
    assert_eq!(reader.step(&mut io, &waker, ReadEvent::Ready), ReadAction::Exit);
    assert!(io.state.has(Flag::IoStopped) && !io.state.has(Flag::IoErr));
    match recv(&mut io, &waker) {
        Poll::Ready(res) => {
            assert!(matches!(
                dispatcher.on_recv::<_, _, String>(res),
                Some(DispatchItem::Disconnect(None))
            ));
        }
        Poll::Pending => panic!("the peer is gone"),
    }
    assert_eq!(dispatcher.state(), DispatcherState::Stop);
}

#[test]
fn round_trip_through_two_connections() {
    let (mut a, _ra, wa) = connect();
    let (mut b, rb, _wb) = connect();
    let (_c, waker) = counting_waker();
    let frames: Vec<Vec<u8>> = vec![b"one".to_vec(), Vec::new(), vec![7u8; 3000], b"four".to_vec()];
    for f in &frames {
        send(&mut a, f.clone()).unwrap();
    }
    let mut writer = WriteTask::new(wa);
    let (wire, _) = flush_all(&mut writer, &mut a, &waker, 1000);

    let mut reader = ReadTask::new(rb);
    let mut got = Vec::new();
    for piece in wire.chunks(333) {
        deliver(&mut reader, &mut b, &waker, &[piece]);
        while let Poll::Ready(res) = recv(&mut b, &waker) {
            got.push(res.unwrap());
        }
    }
    assert_eq!(got, frames);
}

#[test]
fn keep_alive_expiry_is_told_after_the_frame() {
    let (mut io, r, w) = connect();
    let (dc, waker) = counting_waker();
    let mut reader = ReadTask::new(r);
    let mut writer = WriteTask::new(w);
    let mut dispatcher = Dispatcher::new();

    deliver(&mut reader, &mut io, &waker, &[b"\x00\x00\x00\x04ping"]);
    io.state.keepalive_expired();
    assert!(io.state.has(Flag::DspKeepalive));

    match recv(&mut io, &waker) {
        Poll::Ready(Ok(frame)) => {
            assert_eq!(frame, b"ping");
            assert!(matches!(
                dispatcher.on_recv::<_, String, String>(Ok(frame)),
                Some(DispatchItem::Item(_))
            ));
            send(&mut io, b"pong".to_vec()).unwrap();
        }
        _ => panic!("the frame comes first"),
    }
    match recv(&mut io, &waker) {
        Poll::Ready(Err(e)) => {
            assert!(matches!(e, RecvError::KeepAlive));
            assert!(matches!(
                dispatcher.on_recv::<Vec<u8>, String, String>(Err(e)),
                Some(DispatchItem::KeepAliveTimeout)
            ));
        }
        _ => panic!("the timer has expired"),
    }
    assert!(!io.state.has(Flag::DspKeepalive));
    assert_eq!(dispatcher.state(), DispatcherState::Stop);
    assert!(dispatcher
        .on_recv::<Vec<u8>, String, String>(Err(RecvError::KeepAlive))
        .is_none());

    assert!(dispatcher.poll_stop(&mut io));
    assert_eq!(dispatcher.state(), DispatcherState::Shutdown);
    assert!(!dispatcher.poll_stop(&mut io));
    assert!(io.state.has(Flag::IoShutdown));

    let (wire, action) = flush_all(&mut writer, &mut io, &waker, 100);
    assert_eq!(wire, b"\x00\x00\x00\x04pong");
    assert_eq!(action, WriteAction::HalfClose);
    assert_eq!(writer.step(&mut io, &waker, WriteEvent::HalfClosed), WriteAction::Discard);
    assert_eq!(writer.step(&mut io, &waker, WriteEvent::DiscardEof), WriteAction::Exit);
    assert!(io.state.has(Flag::IoStopped));
    assert!(woken(&dc) >= 1);
}

#[test]
fn keep_alive_waits_for_calls_under_way() {
    let (mut io, _r, _w) = connect();
    let mut dispatcher = Dispatcher::new();
    assert!(dispatcher.call_started());
    assert!(dispatcher.call_started());
    assert_eq!(dispatcher.inflight(), 2);
    dispatcher.on_recv::<Vec<u8>, String, String>(Err(RecvError::KeepAlive));
    assert!(!dispatcher.poll_stop(&mut io));
    assert!(!io.state.has(Flag::IoShutdown));
    dispatcher.call_finished();
    assert!(!dispatcher.poll_stop(&mut io));
    dispatcher.call_finished();
    dispatcher.call_finished();
    assert_eq!(dispatcher.inflight(), 0);
    assert!(dispatcher.poll_stop(&mut io));
    assert!(io.state.has(Flag::IoShutdown));
}

#[test]
fn decoder_error_is_delivered_once() {
    let (mut io, r, w) = connect();
    let (_c, waker) = counting_waker();
    let mut reader = ReadTask::new(r);
    let mut writer = WriteTask::new(w);
    let mut dispatcher = Dispatcher::new();

    deliver(&mut reader, &mut io, &waker, &[b"\xff\xff\xff\xff"]);
    let mut errors = 0;
    for _ in 0..3 {
        if let Poll::Ready(res) = recv(&mut io, &waker) {
            match dispatcher.on_recv::<_, _, String>(res) {
                Some(DispatchItem::DecoderError(e)) => {
                    assert_eq!(e, "frame too long");
                    errors += 1;
                }
                Some(other) => panic!("unexpected {:?}", other.fmt_debug()),
                None => {}
            }
        }
    }
    assert_eq!(errors, 1);
    assert_eq!(dispatcher.state(), DispatcherState::Stop);

    assert!(dispatcher.poll_stop(&mut io));
    assert!(io.state.has(Flag::IoShutdown));
    assert!(!io.state.has(Flag::IoStopped));
    let (_, action) = flush_all(&mut writer, &mut io, &waker, 100);
    assert_eq!(action, WriteAction::HalfClose);
    assert_eq!(writer.step(&mut io, &waker, WriteEvent::HalfClosed), WriteAction::Discard);
    assert_eq!(writer.step(&mut io, &waker, WriteEvent::DiscardEof), WriteAction::Exit);
    assert!(io.state.has(Flag::IoShutdown) && io.state.has(Flag::IoStopped));
}

#[test]
fn encoder_error_stops_the_dispatcher() {
    let (mut io, _r, _w) = connect();
    let mut dispatcher = Dispatcher::new();
    let res = send(&mut io, vec![0u8; MAX_FRAME + 1]);
    assert_eq!(res, Err("frame too long".to_string()));
    let item = dispatcher.on_encoder_error::<Vec<u8>, String, String>(res.unwrap_err());
    assert!(matches!(item, Some(DispatchItem::EncoderError(_))));
    assert_eq!(dispatcher.state(), DispatcherState::Stop);
    assert!(dispatcher
        .on_encoder_error::<Vec<u8>, String, String>("second".to_string())
        .is_none());
    assert_eq!(dispatcher.state(), DispatcherState::Stop);
    assert!(dispatcher.poll_stop(&mut io));
    assert!(dispatcher
        .on_encoder_error::<Vec<u8>, String, String>("late".to_string())
        .is_none());
    assert_eq!(dispatcher.state(), DispatcherState::Shutdown);
}

#[test]
fn backpressure_is_told_on_and_off() {
    let (mut io, _r, w) = connect();
    let (_c, waker) = counting_waker();
    let mut writer = WriteTask::new(w);
    let mut dispatcher = Dispatcher::new();
    assert!(dispatcher.on_drain::<Vec<u8>, String, String>(Ok(())).is_none());

    assert_eq!(send(&mut io, vec![1u8; 8188]), Ok(false));
    assert_eq!(send(&mut io, Vec::new()), Ok(true));
    match recv(&mut io, &waker) {
        Poll::Ready(Err(e)) => {
            assert!(matches!(e, RecvError::WriteBackpressure));
            assert!(matches!(
                dispatcher.on_recv::<Vec<u8>, String, String>(Err(e)),
                Some(DispatchItem::WBackPressureEnabled)
            ));
        }
        _ => panic!("back-pressure is on"),
    }
    assert_eq!(dispatcher.state(), DispatcherState::Backpressure);
    assert!(dispatcher
        .on_recv::<Vec<u8>, String, String>(Ok(b"dropped".to_vec()))
        .is_none());

    assert_eq!(writer.step(&mut io, &waker, WriteEvent::Poll), WriteAction::Write);
    assert_eq!(writer.step(&mut io, &waker, WriteEvent::Wrote(4)), WriteAction::Write);
    assert_eq!(writer.step(&mut io, &waker, WriteEvent::WritePending), WriteAction::Flush);
    assert!(!io.state.has(Flag::WrBackpressure));
    assert!(matches!(io.poll_flush(&waker, false), Poll::Ready(Ok(()))));
    assert!(matches!(
        dispatcher.on_drain::<Vec<u8>, String, String>(Ok(())),
        Some(DispatchItem::WBackPressureDisabled)
    ));
    assert_eq!(dispatcher.state(), DispatcherState::Processing);
}

#[test]
fn a_gone_connection_comes_before_other_news() {
    let (mut io, _r, _w) = connect();
    let (_c, waker) = counting_waker();
    io.state.keepalive_expired();
    io.state.stop_dispatcher();
    io.state.stop(Some(IoError::WriteZero));
    io.state.keepalive_expired();
    match io.recv_after_decode::<String>(&waker, None) {
        RecvStep::Fail(RecvError::PeerGone(Some(IoError::WriteZero))) => {}
        other => panic!("unexpected {:?}", other),
    }
    match io.recv_after_decode::<String>(&waker, None) {
        RecvStep::Fail(RecvError::PeerGone(None)) => {}
        other => panic!("unexpected {:?}", other),
    }
}

#[test]
fn a_stop_request_ends_the_receive() {
    let (mut io, _r, _w) = connect();
    let (_c, waker) = counting_waker();
    let mut dispatcher = Dispatcher::new();
    io.state.stop_dispatcher();
    match recv(&mut io, &waker) {
        Poll::Ready(Err(e)) => {
            assert!(matches!(e, RecvError::Stop));
            assert!(dispatcher.on_recv::<Vec<u8>, String, String>(Err(e)).is_none());
        }
        _ => panic!("the dispatcher is asked to stop"),
    }
    assert_eq!(dispatcher.state(), DispatcherState::Stop);
    assert!(matches!(recv(&mut io, &waker), Poll::Pending));
}

#[test]
fn status_updates_in_order_of_urgency() {
    let (mut io, _r, _w) = connect();
    let (count, waker) = counting_waker();
    assert!(matches!(io.poll_status_update(&waker), Poll::Pending));
    assert!(io.state.dispatch_task.held());
    io.state.flags.insert(Flag::WrBackpressure);
    io.state.keepalive_expired();
    assert_eq!(woken(&count), 1);
    io.state.stop_dispatcher();
    assert!(matches!(io.poll_status_update(&waker), Poll::Ready(IoStatusUpdate::Stop)));
    assert!(matches!(io.poll_status_update(&waker), Poll::Ready(IoStatusUpdate::KeepAlive)));
    assert!(matches!(
        io.poll_status_update(&waker),
        Poll::Ready(IoStatusUpdate::WriteBackpressure)
    ));
    assert!(matches!(
        io.poll_status_update(&waker),
        Poll::Ready(IoStatusUpdate::WriteBackpressure)
    ));
    io.close();
    assert!(matches!(
        io.poll_status_update(&waker),
        Poll::Ready(IoStatusUpdate::PeerGone(None))
    ));
    assert!(!io.state.dispatch_task.held());
}

#[test]
fn dispatcher_read_readiness() {
    let (mut io, r, _w) = connect();
    let (_c, waker) = counting_waker();
    assert!(matches!(io.poll_read_ready(&waker), Poll::Pending));
    assert!(io.state.dispatch_task.held());
    r.release_read_buf(&mut io, BytesMut::from(&b"x"[..]), 1);
    assert!(matches!(io.poll_read_ready(&waker), Poll::Ready(Ok(Some(())))));
    io.state.stop(Some(IoError::TimedOut));
    assert!(matches!(io.poll_read_ready(&waker), Poll::Ready(Err(IoError::TimedOut))));
    assert!(matches!(io.poll_read_ready(&waker), Poll::Ready(Ok(None))));
}

#[test]
fn decode_end_asks_for_more_and_ends_a_read_pause() {
    let (mut io, r, _w) = connect();
    let (count, waker) = counting_waker();
    r.release_read_buf(&mut io, BytesMut::from(&vec![0u8; 5000][..]), 5000);
    assert!(io.state.has(Flag::RdBufFull) && io.state.has(Flag::RdReady));
    io.state.read_task.register(&waker);
    let buf = io.decode_begin();
    assert_eq!(buf.as_ref().unwrap().len(), 5000);
    io.decode_end(buf, Decoded::NeedMore);
    assert!(!io.state.has(Flag::RdReady));
    assert!(!io.state.has(Flag::RdBufFull));
    assert_eq!(woken(&count), 1);
    assert_eq!(io.state.read_buf.as_ref().unwrap().len(), 5000);

    let mut buf = io.decode_begin();
    buf.as_mut().unwrap().clear();
    io.decode_end(buf, Decoded::Frame);
    assert!(io.state.read_buf.is_none());
}

#[test]
fn keep_alive_is_ignored_by_a_gone_connection() {
    let (mut io, _r, _w) = connect();
    io.close();
    io.state.keepalive_expired();
    assert!(!io.state.has(Flag::DspKeepalive));
}

#[test]
fn senders_wait_for_the_write_buffer() {
    let (mut io, _r, w) = connect();
    let (count, waker) = counting_waker();
    assert!(matches!(io.poll_flush(&waker, true), Poll::Ready(Ok(()))));
    assert!(matches!(io.poll_flush(&waker, false), Poll::Ready(Ok(()))));

    io.write(b"abc").unwrap();
    assert!(matches!(io.poll_flush(&waker, false), Poll::Ready(Ok(()))));
    assert!(!io.state.has(Flag::WrWait));
    assert!(matches!(io.poll_flush(&waker, true), Poll::Pending));
    assert!(io.state.has(Flag::WrWait));
    assert!(io.state.dispatch_task.held());

    let mut writer = WriteTask::new(w);
    let (wire, action) = flush_all(&mut writer, &mut io, &waker, 100);
    assert_eq!(wire, b"abc");
    assert_eq!(action, WriteAction::Park);
    assert!(!io.state.has(Flag::WrWait));
    assert_eq!(woken(&count), 1);
    assert!(matches!(io.poll_flush(&waker, true), Poll::Ready(Ok(()))));

    io.write(&vec![0u8; 8193]).unwrap();
    assert!(matches!(io.poll_flush(&waker, false), Poll::Pending));
    io.state.stop(Some(IoError::WriteZero));
    assert!(matches!(io.poll_flush(&waker, false), Poll::Ready(Err(IoError::WriteZero))));
    assert!(matches!(io.poll_flush(&waker, true), Poll::Ready(Err(IoError::Disconnected))));
}

#[test]
fn a_connection_that_goes_during_backpressure_is_told_once() {
    let mut dispatcher = Dispatcher::new();
    dispatcher.on_recv::<Vec<u8>, String, String>(Err(RecvError::WriteBackpressure));
    assert_eq!(dispatcher.state(), DispatcherState::Backpressure);
    assert!(matches!(
        dispatcher.on_drain::<Vec<u8>, String, String>(Err(IoError::WriteZero)),
        Some(DispatchItem::Disconnect(Some(IoError::WriteZero)))
    ));
    assert_eq!(dispatcher.state(), DispatcherState::Stop);
    assert!(dispatcher
        .on_drain::<Vec<u8>, String, String>(Err(IoError::WriteZero))
        .is_none());
    assert!(dispatcher
        .on_recv::<Vec<u8>, String, String>(Err(RecvError::PeerGone(None)))
        .is_none());

    let mut dispatcher = Dispatcher::new();
    dispatcher.on_recv::<Vec<u8>, String, String>(Err(RecvError::WriteBackpressure));
    assert!(matches!(
        dispatcher.on_drain::<Vec<u8>, String, String>(Err(IoError::Disconnected)),
        Some(DispatchItem::Disconnect(None))
    ));
}

#[test]
fn react_takes_every_event() {
    let mut dispatcher = Dispatcher::new();
    let item: Option<Item> = dispatcher.react(DispatchEvent::Received(Ok(b"f".to_vec())));
    assert!(matches!(item, Some(DispatchItem::Item(_))));
    let item: Option<Item> = dispatcher.react(DispatchEvent::Drained(Ok(())));
    assert!(item.is_none());
    let item: Option<Item> = dispatcher.react(DispatchEvent::EncoderFailed("bad".to_string()));
    assert!(matches!(item, Some(DispatchItem::EncoderError(_))));
    assert_eq!(dispatcher.state(), DispatcherState::Stop);
}
