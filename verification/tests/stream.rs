use bluetooth_spp::common::device::BluetoothDevice;
use bluetooth_spp::provider::{
    DeviceHandle, OperationHandle, PairingState, ProviderCall, ProviderError, ProviderReply,
    ServiceHandle, SocketHandle,
};
use bluetooth_spp::windows::session::{ReadStep, WinrtSession, WriteStep};
use bluetooth_spp::windows::state::{
    ConnectStep, FlushStep, SessionState, Slot, StreamStep,
};
use bluetooth_spp::{BluetoothError, Poll};
use std::collections::VecDeque;
use std::time::Duration;

fn failed() -> ProviderError {
    ProviderError::Failed("gone".to_string())
}

/// A ready session that owns socket 3.
fn ready() -> WinrtSession {
    let mut session = WinrtSession::new();
    let device = BluetoothDevice::new("Peer".to_string(), 0xD0AE_0505_1A22);
    session.begin_connect(&device, false);
    session.on_reply(1, ProviderReply::Device(Ok(DeviceHandle(5))));
    session.on_reply(1, ProviderReply::Services(Ok(vec![ServiceHandle(8)])));
    session.on_reply(1, ProviderReply::Socket(Ok(SocketHandle(3))));
    assert!(session.is_ready());
    session
}

/// A provider in memory: it resolves every device, finds one service, and
/// its socket gives back what was written to it.
struct Echo {
    wire: VecDeque<u8>,
    reads: Vec<(OperationHandle, usize)>,
    writes: Vec<(OperationHandle, Vec<u8>)>,
    issued: u64,
    paired: bool,
    most_reads: usize,
    most_writes: usize,
}

impl Echo {
    fn new() -> Echo {
        Echo {
            wire: VecDeque::new(),
            reads: vec![],
            writes: vec![],
            issued: 0,
            paired: false,
            most_reads: 0,
            most_writes: 0,
        }
    }

    fn answer(&mut self, call: ProviderCall) -> ProviderReply {
        match call {
            ProviderCall::ResolveDevice { address } => ProviderReply::Device(Ok(DeviceHandle(address))),
            ProviderCall::QueryPairing { .. } => {
                ProviderReply::Pairing(Ok(PairingState { can_pair: true, is_paired: self.paired }))
            }
            ProviderCall::Pair { .. } => {
                self.paired = true;
                ProviderReply::Paired(Ok(()))
            }
            ProviderCall::FindServices { .. } => ProviderReply::Services(Ok(vec![ServiceHandle(1)])),
            ProviderCall::ConnectSocket { .. } => ProviderReply::Socket(Ok(SocketHandle(1))),
        }
    }

    fn start_read(&mut self, capacity: usize) -> OperationHandle {
        self.issued += 1;
        self.reads.push((OperationHandle(self.issued), capacity));
        self.most_reads = self.most_reads.max(self.reads.len());
        OperationHandle(self.issued)
    }

    fn start_write(&mut self, bytes: Vec<u8>) -> OperationHandle {
        self.issued += 1;
        self.writes.push((OperationHandle(self.issued), bytes));
        self.most_writes = self.most_writes.max(self.writes.len());
        OperationHandle(self.issued)
    }

    fn poll_read(&mut self, op: OperationHandle) -> Poll<Result<Vec<u8>, ProviderError>> {
        let at = self.reads.iter().position(|(handle, _)| *handle == op).unwrap();
        if self.wire.is_empty() {
            return Poll::Pending;
        }
        let (_, capacity) = self.reads.remove(at);
        let count = capacity.min(self.wire.len());
        Poll::Ready(Ok(self.wire.drain(..count).collect()))
    }

    fn poll_write(&mut self, op: OperationHandle) -> Poll<Result<usize, ProviderError>> {
        let at = self.writes.iter().position(|(handle, _)| *handle == op).unwrap();
        let (_, bytes) = self.writes.remove(at);
        self.wire.extend(bytes.iter());
        Poll::Ready(Ok(bytes.len()))
    }
}

/// Runs an attempt to its end against the provider.
fn connect(
    session: &mut WinrtSession,
    provider: &mut Echo,
    device: &BluetoothDevice,
    need_pairing: bool,
) -> Result<SocketHandle, BluetoothError> {
    let start = session.begin_connect(device, need_pairing);
    let mut attempt = start.attempt;
    let mut call = start.call;
    loop {
        match session.on_reply(attempt, provider.answer(call)) {
            ConnectStep::Call { attempt: number, call: next } => {
                attempt = number;
                call = next;
            }
            ConnectStep::Finished(result) => return result,
            ConnectStep::Ignored { .. } => panic!("the session did not take the answer it asked for"),
        }
    }
}

/// One poll of a read, as an embedder makes it.
fn poll_read(session: &mut WinrtSession, provider: &mut Echo, capacity: usize) -> Poll<Vec<u8>> {
    let step = match session.poll_read(capacity) {
        ReadStep::Pending => return Poll::Pending,
        ReadStep::Ready { bytes } => return Poll::Ready(bytes),
        ReadStep::Start { len } => session.read_started(Ok(provider.start_read(len))),
        ReadStep::Check { op } => StreamStep::Check { op },
    };
    match step {
        StreamStep::Check { op } => session.read_polled(capacity, provider.poll_read(op)),
        _ => Poll::Pending,
    }
}

/// One poll of a write, as an embedder makes it.
fn poll_write(session: &mut WinrtSession, provider: &mut Echo, buf: &[u8]) -> Poll<usize> {
    let step = match session.poll_write(buf) {
        WriteStep::Pending => return Poll::Pending,
        WriteStep::Ready { count } => return Poll::Ready(count),
        WriteStep::Start { bytes } => session.write_started(Ok(provider.start_write(bytes))),
        WriteStep::Check { op } => StreamStep::Check { op },
    };
    match step {
        StreamStep::Check { op } => session.write_polled(buf.len(), provider.poll_write(op)),
        _ => Poll::Pending,
    }
}

fn hex_stream_to_bytes(text: &str) -> Option<Vec<u8>> {
    if text.len() % 2 != 0 {
        return None;
    }
    (0..text.len()).step_by(2).map(|at| u8::from_str_radix(&text[at..at + 2], 16).ok()).collect()
}

#[test]
fn test_connect() {
    let mut winrt = WinrtSession::new();
    let mut provider = Echo::new();
    let device =
        BluetoothDevice::new_by_addr_string("Test".to_string(), &"D0:AE:05:05:1A:22".to_string())
            .unwrap();

    let finished = connect(&mut winrt, &mut provider, &device, true);
    let err = winrt.finish_with_deadline(Some(finished), Duration::from_secs(500));
    if let Err(e) = &err {
        println!("{:?}", e)
    }
    assert_eq!(err, Ok(SocketHandle(1)));
    assert!(provider.paired);

    let sent =
        hex_stream_to_bytes("a5a5020016001d4d0101030001000002020000fc03020020000402001027").unwrap();
    let res = poll_write(&mut winrt, &mut provider, &sent);
    println!("{:?}", res);
    assert_eq!(res, Poll::Ready(30));

    let buf: Vec<u8> = Vec::new();
    let res = poll_read(&mut winrt, &mut provider, buf.len());
    println!("{:?}", res);
    assert_eq!(res, Poll::Ready(vec![]));
}

#[test]
fn connect_write_read_against_an_echo() {
    let mut session = WinrtSession::new();
    let mut provider = Echo::new();
    let device = BluetoothDevice::new("Peer".to_string(), 0xD0AE_0505_1A22);
    assert_eq!(connect(&mut session, &mut provider, &device, false), Ok(SocketHandle(1)));
    assert!(session.is_ready());
    assert_eq!(*session.state(), SessionState::Ready);

    assert_eq!(poll_write(&mut session, &mut provider, &[1, 2, 3]), Poll::Ready(3));
    assert_eq!(poll_read(&mut session, &mut provider, 3), Poll::Ready(vec![1, 2, 3]));

    let sent =
        hex_stream_to_bytes("a5a5020016001d4d0101030001000002020000fc03020020000402001027").unwrap();
    assert_eq!(poll_write(&mut session, &mut provider, &sent), Poll::Ready(30));
    assert_eq!(poll_read(&mut session, &mut provider, 16), Poll::Ready(sent[..16].to_vec()));
    assert_eq!(poll_read(&mut session, &mut provider, 16), Poll::Ready(sent[16..].to_vec()));
    assert_eq!(provider.most_reads, 1);
    assert_eq!(provider.most_writes, 1);
}

#[test]
fn a_read_waits_for_bytes_and_is_started_once() {
    let mut session = WinrtSession::new();
    let mut provider = Echo::new();
    let device = BluetoothDevice::new("Peer".to_string(), 1);
    connect(&mut session, &mut provider, &device, false).unwrap();
    for _ in 0..4 {
        assert_eq!(poll_read(&mut session, &mut provider, 8), Poll::Pending);
    }
    assert_eq!(provider.reads.len(), 1);
    assert_eq!(provider.issued, 1);
    assert_eq!(poll_write(&mut session, &mut provider, &[7, 7]), Poll::Ready(2));
    assert_eq!(poll_read(&mut session, &mut provider, 8), Poll::Ready(vec![7, 7]));
    assert_eq!(provider.reads.len(), 0);
    assert_eq!(session.read_slot(), Slot::Empty);
    assert_eq!(provider.most_reads, 1);
}

#[test]
fn a_poll_while_not_ready_starts_nothing() {
    let mut session = WinrtSession::new();
    assert_eq!(session.poll_read(16), ReadStep::Pending);
    assert_eq!(session.poll_read(0), ReadStep::Pending);
    assert_eq!(session.poll_write(&[1, 2, 3]), WriteStep::Pending);
    assert_eq!(session.poll_write(&[]), WriteStep::Pending);
    assert_eq!(session.read_slot(), Slot::Empty);
    assert_eq!(session.write_slot(), Slot::Empty);

    let device = BluetoothDevice::new("Peer".to_string(), 1);
    session.begin_connect(&device, false);
    assert_eq!(session.poll_read(16), ReadStep::Pending);
    assert_eq!(session.poll_write(&[1, 2, 3]), WriteStep::Pending);
    session.on_reply(1, ProviderReply::Device(Err(failed())));
    assert_eq!(session.poll_read(16), ReadStep::Pending);
    assert_eq!(session.poll_write(&[1, 2, 3]), WriteStep::Pending);
    assert_eq!(session.read_slot(), Slot::Empty);
    assert_eq!(session.write_slot(), Slot::Empty);
}

#[test]
fn one_read_at_a_time() {
    let mut session = ready();
    assert_eq!(session.poll_read(16), ReadStep::Start { len: 16 });
    assert_eq!(session.read_slot(), Slot::Starting { len: 16 });
    assert_eq!(session.poll_read(16), ReadStep::Pending);
    assert_eq!(session.poll_read(4), ReadStep::Pending);
    assert_eq!(session.read_started(Ok(OperationHandle(1))), StreamStep::Check { op: OperationHandle(1) });
    assert_eq!(session.read_slot(), Slot::Outstanding { op: OperationHandle(1), len: 16 });
    assert_eq!(session.poll_read(16), ReadStep::Check { op: OperationHandle(1) });
    assert_eq!(session.poll_read(32), ReadStep::Check { op: OperationHandle(1) });
    assert_eq!(session.read_started(Ok(OperationHandle(2))), StreamStep::Pending);
    assert_eq!(session.read_slot(), Slot::Outstanding { op: OperationHandle(1), len: 16 });
    assert_eq!(session.read_polled(16, Poll::Pending), Poll::Pending);
    assert_eq!(session.read_slot(), Slot::Outstanding { op: OperationHandle(1), len: 16 });
    assert_eq!(session.read_polled(16, Poll::Ready(Ok(vec![4, 5]))), Poll::Ready(vec![4, 5]));
    assert_eq!(session.read_slot(), Slot::Empty);
    assert!(session.is_ready());
    assert_eq!(session.poll_read(16), ReadStep::Start { len: 16 });
}

#[test]
fn one_write_at_a_time() {
    let mut session = ready();
    assert_eq!(session.poll_write(&[1, 2, 3]), WriteStep::Start { bytes: vec![1, 2, 3] });
    assert_eq!(session.write_slot(), Slot::Starting { len: 3 });
    assert_eq!(session.poll_write(&[1, 2, 3]), WriteStep::Pending);
    assert_eq!(session.write_started(Ok(OperationHandle(1))), StreamStep::Check { op: OperationHandle(1) });
    assert_eq!(session.poll_write(&[1, 2, 3]), WriteStep::Check { op: OperationHandle(1) });
    assert_eq!(session.poll_flush(), FlushStep::Check { op: OperationHandle(1) });
    assert_eq!(session.write_polled(3, Poll::Pending), Poll::Pending);
    assert_eq!(session.write_polled(3, Poll::Ready(Ok(2))), Poll::Ready(2));
    assert_eq!(session.write_slot(), Slot::Empty);
    assert_eq!(session.poll_flush(), FlushStep::Ready);
    assert_eq!(session.poll_write(&[3]), WriteStep::Start { bytes: vec![3] });
    // Reads and writes do not wait for each other.
    assert_eq!(session.poll_read(8), ReadStep::Start { len: 8 });
}

#[test]
fn nothing_to_read_into_nothing_to_write() {
    let mut session = ready();
    assert_eq!(session.poll_read(0), ReadStep::Ready { bytes: vec![] });
    assert_eq!(session.poll_write(&[]), WriteStep::Ready { count: 0 });
    assert_eq!(session.read_slot(), Slot::Empty);
    assert_eq!(session.write_slot(), Slot::Empty);
}

#[test]
fn a_failed_read_clears_readiness() {
    let mut session = ready();
    session.poll_read(16);
    session.read_started(Ok(OperationHandle(1)));
    assert_eq!(session.read_polled(16, Poll::Ready(Err(failed()))), Poll::Pending);
    assert!(!session.is_ready());
    assert_eq!(*session.state(), SessionState::Failed(BluetoothError::NotConnected));
    assert_eq!(session.read_slot(), Slot::Empty);
    assert_eq!(session.poll_read(16), ReadStep::Pending);
    assert_eq!(session.socket(), Some(SocketHandle(3)));

    // Only a new attempt makes the session ready again, and it closes the socket.
    let device = BluetoothDevice::new("Peer".to_string(), 1);
    let start = session.begin_connect(&device, false);
    assert_eq!(start.close, Some(SocketHandle(3)));
}

#[test]
fn a_failed_write_clears_readiness() {
    let mut session = ready();
    session.poll_write(&[1, 2, 3]);
    session.write_started(Ok(OperationHandle(1)));
    session.poll_read(4);
    session.read_started(Ok(OperationHandle(2)));
    assert_eq!(session.write_polled(3, Poll::Ready(Err(failed()))), Poll::Pending);
    assert!(!session.is_ready());
    assert_eq!(session.write_slot(), Slot::Empty);
    assert_eq!(session.poll_write(&[1, 2, 3]), WriteStep::Pending);
    // The read that was under way is dropped at the next poll.
    assert_eq!(session.read_slot(), Slot::Outstanding { op: OperationHandle(2), len: 4 });
    assert_eq!(session.poll_read(4), ReadStep::Pending);
    assert_eq!(session.read_slot(), Slot::Empty);
}

#[test]
fn an_operation_that_does_not_start_clears_readiness() {
    let mut session = ready();
    session.poll_read(16);
    assert_eq!(session.read_started(Err(failed())), StreamStep::Pending);
    assert!(!session.is_ready());
    assert_eq!(session.read_slot(), Slot::Empty);

    let mut session = ready();
    session.poll_write(&[1]);
    assert_eq!(session.write_started(Err(failed())), StreamStep::Pending);
    assert!(!session.is_ready());
    assert_eq!(session.write_slot(), Slot::Empty);
}

#[test]
fn more_than_was_asked_for_is_a_failure() {
    let mut session = ready();
    session.poll_read(2);
    session.read_started(Ok(OperationHandle(1)));
    assert_eq!(session.read_polled(16, Poll::Ready(Ok(vec![1, 2, 3]))), Poll::Pending);
    assert!(!session.is_ready());
    assert_eq!(session.read_slot(), Slot::Empty);

    let mut session = ready();
    session.poll_write(&[1, 2]);
    session.write_started(Ok(OperationHandle(1)));
    assert_eq!(session.write_polled(3, Poll::Ready(Ok(3))), Poll::Pending);
    assert!(!session.is_ready());

    let mut session = ready();
    session.poll_read(2);
    session.read_started(Ok(OperationHandle(1)));
    assert_eq!(session.read_polled(16, Poll::Ready(Ok(vec![1, 2]))), Poll::Ready(vec![1, 2]));
    assert!(session.is_ready());
}

#[test]
fn a_report_nobody_asked_for_changes_nothing() {
    let mut session = ready();
    assert_eq!(session.read_started(Ok(OperationHandle(1))), StreamStep::Pending);
    assert_eq!(session.read_started(Err(failed())), StreamStep::Pending);
    assert_eq!(session.read_polled(16, Poll::Ready(Ok(vec![1]))), Poll::Pending);
    assert_eq!(session.read_polled(16, Poll::Ready(Err(failed()))), Poll::Pending);
    assert_eq!(session.write_started(Err(failed())), StreamStep::Pending);
    assert_eq!(session.write_polled(3, Poll::Ready(Err(failed()))), Poll::Pending);
    assert!(session.is_ready());
    assert_eq!(session.read_slot(), Slot::Empty);
    assert_eq!(session.write_slot(), Slot::Empty);
}

#[test]
fn close_releases_the_socket_and_drops_what_is_pending() {
    let mut session = ready();
    session.poll_read(16);
    session.read_started(Ok(OperationHandle(1)));
    session.poll_write(&[1]);
    assert_eq!(session.poll_shutdown(), Poll::Ready(Some(SocketHandle(3))));
    assert_eq!(*session.state(), SessionState::Idle);
    assert_eq!(session.socket(), None);
    assert_eq!(session.read_slot(), Slot::Empty);
    assert_eq!(session.write_slot(), Slot::Empty);
    assert_eq!(session.poll_flush(), FlushStep::Ready);
    assert_eq!(session.poll_shutdown(), Poll::Ready(None));
    assert_eq!(session.device().addr(), 0xD0AE_0505_1A22);
}

#[test]
fn a_new_attempt_drops_what_is_pending() {
    let mut session = ready();
    session.poll_read(16);
    session.read_started(Ok(OperationHandle(1)));
    session.poll_write(&[1]);
    session.write_started(Ok(OperationHandle(2)));
    let device = BluetoothDevice::new("Peer".to_string(), 1);
    session.begin_connect(&device, false);
    assert_eq!(session.read_slot(), Slot::Empty);
    assert_eq!(session.write_slot(), Slot::Empty);
    assert_eq!(session.read_polled(16, Poll::Ready(Ok(vec![1]))), Poll::Pending);
}

#[test]
fn flush_waits_for_a_write_being_started() {
    let mut session = ready();
    assert_eq!(session.poll_flush(), FlushStep::Ready);
    session.poll_write(&[1]);
    assert_eq!(session.poll_flush(), FlushStep::Pending);
    session.write_started(Ok(OperationHandle(1)));
    assert_eq!(session.poll_flush(), FlushStep::Check { op: OperationHandle(1) });
    session.write_polled(3, Poll::Ready(Err(failed())));
    assert_eq!(session.poll_flush(), FlushStep::Ready);
}

#[test]
fn a_poll_with_less_room_gets_no_more_than_fits() {
    let mut session = ready();
    assert_eq!(session.poll_read(4), ReadStep::Start { len: 4 });
    session.read_started(Ok(OperationHandle(1)));
    assert_eq!(session.poll_read(2), ReadStep::Check { op: OperationHandle(1) });
    assert_eq!(session.read_polled(2, Poll::Ready(Ok(vec![7, 8, 9]))), Poll::Ready(vec![7, 8]));
    assert_eq!(session.received(), 1);
    assert_eq!(session.read_slot(), Slot::Empty);
    assert!(session.is_ready());

    // What did not fit goes out first, before a new native read.
    assert_eq!(session.poll_read(5), ReadStep::Ready { bytes: vec![9] });
    assert_eq!(session.received(), 0);
    assert_eq!(session.poll_read(5), ReadStep::Start { len: 5 });
}

#[test]
fn held_bytes_go_out_in_order() {
    let mut session = ready();
    session.poll_read(8);
    session.read_started(Ok(OperationHandle(1)));
    assert_eq!(
        session.read_polled(1, Poll::Ready(Ok(vec![1, 2, 3, 4, 5, 6]))),
        Poll::Ready(vec![1])
    );
    assert_eq!(session.poll_read(0), ReadStep::Ready { bytes: vec![] });
    assert_eq!(session.poll_read(2), ReadStep::Ready { bytes: vec![2, 3] });
    assert_eq!(session.poll_read(1), ReadStep::Ready { bytes: vec![4] });
    assert_eq!(session.received(), 2);
    assert_eq!(session.poll_read(100), ReadStep::Ready { bytes: vec![5, 6] });
    assert_eq!(session.poll_read(100), ReadStep::Start { len: 100 });
}

#[test]
fn a_read_that_ends_for_a_poll_without_room_keeps_its_bytes() {
    let mut session = ready();
    session.poll_read(4);
    session.read_started(Ok(OperationHandle(1)));
    assert_eq!(session.read_polled(0, Poll::Ready(Ok(vec![1, 2]))), Poll::Ready(vec![]));
    assert_eq!(session.received(), 2);
    assert_eq!(session.poll_read(4), ReadStep::Ready { bytes: vec![1, 2] });
}

#[test]
fn held_bytes_wait_while_the_session_is_not_ready() {
    let mut session = ready();
    session.poll_read(4);
    session.read_started(Ok(OperationHandle(1)));
    session.read_polled(1, Poll::Ready(Ok(vec![1, 2])));
    session.poll_write(&[9]);
    session.write_started(Err(failed()));
    assert!(!session.is_ready());
    assert_eq!(session.poll_read(4), ReadStep::Pending);
    assert_eq!(session.received(), 1);
    assert_eq!(session.poll_shutdown(), Poll::Ready(Some(SocketHandle(3))));
    assert_eq!(session.received(), 0);
}

#[test]
fn a_write_reports_no_more_than_the_poll_offers() {
    let mut session = ready();
    assert_eq!(session.poll_write(&[1, 2, 3, 4]), WriteStep::Start { bytes: vec![1, 2, 3, 4] });
    session.write_started(Ok(OperationHandle(1)));
    assert_eq!(session.poll_write(&[1, 2]), WriteStep::Check { op: OperationHandle(1) });
    assert_eq!(session.write_polled(2, Poll::Ready(Ok(3))), Poll::Ready(2));
    assert_eq!(session.written(), 1);
    assert_eq!(session.write_slot(), Slot::Empty);

    // The rest of the count is reported first, before a new native write.
    assert_eq!(session.poll_write(&[3, 4, 5]), WriteStep::Ready { count: 1 });
    assert_eq!(session.written(), 0);
    assert_eq!(session.poll_write(&[4, 5]), WriteStep::Start { bytes: vec![4, 5] });
}

#[test]
fn a_write_seen_to_end_by_a_flush_keeps_its_count() {
    let mut session = ready();
    session.poll_write(&[1, 2, 3]);
    session.write_started(Ok(OperationHandle(1)));
    assert_eq!(session.poll_flush(), FlushStep::Check { op: OperationHandle(1) });
    assert_eq!(session.write_polled(0, Poll::Ready(Ok(3))), Poll::Ready(0));
    assert_eq!(session.poll_flush(), FlushStep::Ready);
    assert_eq!(session.written(), 3);
    assert_eq!(session.poll_write(&[1, 2, 3]), WriteStep::Ready { count: 3 });
    assert_eq!(session.poll_write(&[4]), WriteStep::Start { bytes: vec![4] });
}

#[test]
fn a_new_attempt_drops_what_is_held() {
    let mut session = ready();
    session.poll_read(4);
    session.read_started(Ok(OperationHandle(1)));
    session.read_polled(1, Poll::Ready(Ok(vec![1, 2])));
    session.poll_write(&[1, 2, 3]);
    session.write_started(Ok(OperationHandle(2)));
    session.write_polled(1, Poll::Ready(Ok(3)));
    assert_eq!(session.received(), 1);
    assert_eq!(session.written(), 2);
    let device = BluetoothDevice::new("Peer".to_string(), 1);
    session.begin_connect(&device, false);
    assert_eq!(session.received(), 0);
    assert_eq!(session.written(), 0);
}
