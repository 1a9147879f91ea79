//! What a session knows, and how each call and each answer changes it.
//!
//! Everything here is a plain value. The functions are specifications: the
//! session's methods are proved to do exactly what they say.

use crate::common::device::BluetoothDevice;
use crate::provider::{
    DeviceHandle, OperationHandle, PairingState, Progress, ProviderCall, ProviderError,
    ProviderReply, ServiceHandle, SocketHandle,
};
use crate::windows::pair::PairingKind;
use crate::windows::utils::classified;
use crate::{BluetoothError, Poll};
use std::time::Duration;
use vstd::prelude::*;

verus! {

/// Where a session stands. An attempt moves forward through the stages in
/// the order listed, from `ResolvingDevice` to `Ready`, and leaves that line
/// only for `Failed`.
#[derive(Debug, PartialEq, Eq)]
pub enum SessionState {
    /// No attempt has been made, or the session was closed.
    Idle,
    /// Waiting for the provider to resolve the peer.
    ResolvingDevice,
    /// Waiting for the pairing state of `device` or, once pairing was
    /// `requested`, for the pairing itself.
    Pairing { device: DeviceHandle, requested: bool },
    /// Waiting for the services of `device`.
    ResolvingService { device: DeviceHandle },
    /// Waiting for the socket to connect.
    Connecting,
    /// Connected: reads and writes go through.
    Ready,
    /// The attempt, or the connection made by it, has failed.
    Failed(BluetoothError),
}

/// One direction of the stream: at most one native operation at a time.
#[derive(Clone, Copy, Debug, PartialEq, Eq, Structural)]
pub enum Slot {
    /// No operation.
    Empty,
    /// The provider was asked to start an operation on `len` bytes and has
    /// not said yet whether it did.
    Starting { len: usize },
    /// The operation `op` on a buffer of `len` bytes is under way.
    Outstanding { op: OperationHandle, len: usize },
}

/// What the embedder does next for a poll of the stream.
#[derive(Clone, Copy, Debug, PartialEq, Eq, Structural)]
pub enum StreamStep {
    /// Answer the poll with "pending". No native call is made.
    Pending,
    /// Answer the poll with "ready" at once, with `len` bytes of what the
    /// session holds. No native call is made.
    Ready { len: usize },
    /// Start one native operation on `len` bytes and report how that went.
    Start { len: usize },
    /// Look at the operation `op` and report what it says.
    Check { op: OperationHandle },
}

/// What a flush waits for.
#[derive(Clone, Copy, Debug, PartialEq, Eq, Structural)]
pub enum FlushStep {
    /// No write is under way: the flush is done.
    Ready,
    /// A write is being started: answer "pending".
    Pending,
    /// Look at the write `op` and report what it says.
    Check { op: OperationHandle },
}

/// What a look at a native operation has settled.
#[derive(Clone, Copy, Debug, PartialEq, Eq, Structural)]
pub enum Settled {
    /// Nothing: the operation is still under way, or there is none.
    Pending,
    /// The operation has ended well and its result goes to the caller.
    Delivered,
    /// The operation has failed.
    Failed,
}

impl Slot {
    /// The slot after a poll for `len` bytes, and what the embedder does next.
    /// A session that is not ready drops what the slot held and starts
    /// nothing. An operation is started only from an empty slot.
    pub open spec fn polled(self, ready: bool, len: usize) -> (Slot, StreamStep) {
        if !ready {
            (Slot::Empty, StreamStep::Pending)
        } else if len == 0 {
            (self, StreamStep::Ready { len: 0 })
        } else {
            match self {
                Slot::Empty => (Slot::Starting { len }, StreamStep::Start { len }),
                Slot::Starting { .. } => (self, StreamStep::Pending),
                Slot::Outstanding { op, .. } => (self, StreamStep::Check { op }),
            }
        }
    }

    /// The slot after the provider has said whether it started the
    /// operation, what the embedder does next, and whether that was a failure.
    pub open spec fn started(self, started: Result<OperationHandle, ProviderError>) -> (
        Slot,
        StreamStep,
        bool,
    ) {
        match self {
            Slot::Starting { len } => match started {
                Ok(op) => (Slot::Outstanding { op, len }, StreamStep::Check { op }, false),
                Err(_) => (Slot::Empty, StreamStep::Pending, true),
            },
            _ => (self, StreamStep::Pending, false),
        }
    }

    /// The slot after a look at its operation. More bytes moved than the
    /// buffer holds is a failure.
    pub open spec fn settled(self, seen: Progress) -> (Slot, Settled) {
        match self {
            Slot::Outstanding { op, len } => match seen {
                Progress::Running => (self, Settled::Pending),
                Progress::Moved(moved) => if moved <= len {
                    (Slot::Empty, Settled::Delivered)
                } else {
                    (Slot::Empty, Settled::Failed)
                },
                Progress::Failed => (Slot::Empty, Settled::Failed),
            },
            _ => (self, Settled::Pending),
        }
    }

    pub fn poll(self, ready: bool, len: usize) -> (next: (Slot, StreamStep))
        ensures
            next == self.polled(ready, len),
    {
        if !ready {
            (Slot::Empty, StreamStep::Pending)
        } else if len == 0 {
            (self, StreamStep::Ready { len: 0 })
        } else {
            match self {
                Slot::Empty => (Slot::Starting { len }, StreamStep::Start { len }),
                Slot::Starting { .. } => (self, StreamStep::Pending),
                Slot::Outstanding { op, .. } => (self, StreamStep::Check { op }),
            }
        }
    }

    pub fn start(self, started: Result<OperationHandle, ProviderError>) -> (next: (
        Slot,
        StreamStep,
        bool,
    ))
        ensures
            next == self.started(started),
    {
        match self {
            Slot::Starting { len } => match started {
                Ok(op) => (Slot::Outstanding { op, len }, StreamStep::Check { op }, false),
                Err(_) => (Slot::Empty, StreamStep::Pending, true),
            },
            _ => (self, StreamStep::Pending, false),
        }
    }

    pub fn settle(self, seen: Progress) -> (next: (Slot, Settled))
        ensures
            next == self.settled(seen),
    {
        match self {
            Slot::Outstanding { op, len } => match seen {
                Progress::Running => (self, Settled::Pending),
                Progress::Moved(moved) => if moved <= len {
                    (Slot::Empty, Settled::Delivered)
                } else {
                    (Slot::Empty, Settled::Failed)
                },
                Progress::Failed => (Slot::Empty, Settled::Failed),
            },
            _ => (self, Settled::Pending),
        }
    }
}

/// What a look at a read shows, the bytes reduced to their number.
pub open spec fn read_progress(outcome: Poll<Result<Vec<u8>, ProviderError>>) -> Progress {
    match outcome {
        Poll::Pending => Progress::Running,
        Poll::Ready(Ok(bytes)) => Progress::Moved(bytes.len()),
        Poll::Ready(Err(_)) => Progress::Failed,
    }
}

/// What a look at a write shows.
pub open spec fn write_progress(outcome: Poll<Result<usize, ProviderError>>) -> Progress {
    match outcome {
        Poll::Pending => Progress::Running,
        Poll::Ready(Ok(written)) => Progress::Moved(written),
        Poll::Ready(Err(_)) => Progress::Failed,
    }
}

/// What the embedder does when an attempt begins.
#[derive(Clone, Copy, Debug, PartialEq, Eq, Structural)]
pub struct ConnectStart {
    /// The socket of the connection before, to be closed first.
    pub close: Option<SocketHandle>,
    /// The number under which the answers to this attempt are reported.
    pub attempt: u64,
    /// The first call of the attempt.
    pub call: ProviderCall,
}

/// What the embedder does after an answer.
#[derive(Debug, PartialEq, Eq)]
pub enum ConnectStep {
    /// Make this call and report its answer under the same number.
    Call { attempt: u64, call: ProviderCall },
    /// The attempt is over.
    Finished(Result<SocketHandle, BluetoothError>),
    /// The session was not waiting for this answer. A socket that came with
    /// it belongs to nobody and is to be closed.
    Ignored { close: Option<SocketHandle> },
}

/// All that a session knows.
#[verifier::ext_equal]
pub struct SessionData {
    /// The peer of the latest attempt.
    pub device: BluetoothDevice,
    /// The service identifier of the latest attempt.
    pub uuid: u128,
    /// Whether the latest attempt pairs before it looks for the service.
    pub need_pairing: bool,
    pub state: SessionState,
    /// The number of the latest attempt.
    pub attempt: u64,
    /// The socket that the session owns, open until it is handed back.
    pub socket: Option<SocketHandle>,
    pub read: Slot,
    pub write: Slot,
    /// The bytes that came from the peer and were not handed out yet, in
    /// the order in which they came.
    pub received: Seq<u8>,
    /// How many bytes the native side has written that no poll was told of
    /// yet.
    pub written: usize,
}

/// The smaller of the room that a poll offers and what is held for it.
pub open spec fn fitting(room: usize, held: nat) -> usize {
    if room <= held {
        room
    } else {
        held as usize
    }
}

/// A count and what comes on top of it, kept at the largest count where
/// the sum is beyond it.
pub open spec fn counted(count: usize, more: usize) -> usize {
    if count + more <= usize::MAX {
        (count + more) as usize
    } else {
        usize::MAX
    }
}

/// The number after `attempt`. It starts again at zero after the largest.
pub open spec fn next_attempt(attempt: u64) -> u64 {
    if attempt == u64::MAX {
        0
    } else {
        (attempt + 1) as u64
    }
}

/// The socket that comes with an answer, if one does.
pub open spec fn carried_socket(reply: ProviderReply) -> Option<SocketHandle> {
    match reply {
        ProviderReply::Socket(Ok(socket)) => Some(socket),
        _ => None,
    }
}

impl SessionData {
    /// A session as it is made: no peer, the default service, no attempt.
    pub open spec fn is_fresh(self) -> bool {
        &&& self.device.name@ == Seq::<char>::empty()
        &&& self.device.addr == 0
        &&& self.uuid == crate::common::device::SPP_UUID
        &&& self.need_pairing
        &&& self.state is Idle
        &&& self.attempt == 0
        &&& self.socket is None
        &&& self.read is Empty
        &&& self.write is Empty
        &&& self.received.len() == 0
        &&& self.written == 0
    }

    pub open spec fn is_ready(self) -> bool {
        self.state is Ready
    }

    /// Whether an attempt is under way.
    pub open spec fn in_progress(self) -> bool {
        self.state is ResolvingDevice || self.state is Pairing || self.state is ResolvingService
            || self.state is Connecting
    }

    /// The session once an attempt on `device` has begun. What the session
    /// had is gone: the socket is handed back, pending operations are
    /// dropped, and the answers to earlier attempts no longer count.
    pub open spec fn begun(self, device: BluetoothDevice, uuid: u128, need_pairing: bool) -> SessionData {
        SessionData {
            device,
            uuid,
            need_pairing,
            state: SessionState::ResolvingDevice,
            attempt: next_attempt(self.attempt),
            socket: None,
            read: Slot::Empty,
            write: Slot::Empty,
            received: Seq::empty(),
            written: 0,
        }
    }

    /// What the embedder is told when that attempt begins.
    pub open spec fn start(self, device: BluetoothDevice) -> ConnectStart {
        ConnectStart {
            close: self.socket,
            attempt: next_attempt(self.attempt),
            call: ProviderCall::ResolveDevice { address: device.addr },
        }
    }

    /// The attempt goes on to `state` with `call`.
    pub open spec fn proceed(self, state: SessionState, call: ProviderCall) -> (SessionData, ConnectStep) {
        (SessionData { state, ..self }, ConnectStep::Call { attempt: self.attempt, call })
    }

    /// The attempt ends with `error`.
    pub open spec fn fail(self, error: BluetoothError) -> (SessionData, ConnectStep) {
        (SessionData { state: SessionState::Failed(error), ..self }, ConnectStep::Finished(Err(error)))
    }

    /// The attempt goes on to look for the service on `device`.
    pub open spec fn seek_service(self, device: DeviceHandle) -> (SessionData, ConnectStep) {
        self.proceed(
            SessionState::ResolvingService { device },
            ProviderCall::FindServices { device, uuid: self.uuid },
        )
    }

    /// The answer changes nothing.
    pub open spec fn ignore(self, reply: ProviderReply) -> (SessionData, ConnectStep) {
        (self, ConnectStep::Ignored { close: carried_socket(reply) })
    }

    /// The session once the connection is known to be broken. Only a new
    /// attempt makes it ready again.
    pub open spec fn degraded(self) -> SessionData {
        if self.state is Ready {
            SessionData { state: SessionState::Failed(BluetoothError::NotConnected), ..self }
        } else {
            self
        }
    }

    /// The session once a deadline of length `timeout` has passed. An
    /// attempt that is under way is given up.
    pub open spec fn abandoned(self, timeout: Duration) -> SessionData {
        if self.in_progress() {
            SessionData { state: SessionState::Failed(BluetoothError::TimedOut(timeout)), ..self }
        } else {
            self
        }
    }

    /// The session once it is closed: it owns nothing and waits for nothing.
    pub open spec fn closed(self) -> SessionData {
        SessionData {
            state: SessionState::Idle,
            socket: None,
            read: Slot::Empty,
            write: Slot::Empty,
            received: Seq::empty(),
            written: 0,
            ..self
        }
    }

    /// The session after a read poll with room for `capacity` bytes, and
    /// what the embedder does next. Bytes that the session still holds go
    /// out first, as many as fit; a native read is asked for only when none
    /// are left.
    pub open spec fn poll_read(self, capacity: usize) -> (SessionData, StreamStep) {
        if self.is_ready() && capacity > 0 && self.received.len() > 0 {
            let count = fitting(capacity, self.received.len());
            (
                SessionData { received: self.received.skip(count as int), ..self },
                StreamStep::Ready { len: count },
            )
        } else {
            let (read, step) = self.read.polled(self.is_ready(), capacity);
            (SessionData { read, ..self }, step)
        }
    }

    /// The bytes that this read poll hands out.
    pub open spec fn read_handed(self, capacity: usize) -> Seq<u8> {
        if self.is_ready() && capacity > 0 {
            self.received.take(fitting(capacity, self.received.len()) as int)
        } else {
            Seq::empty()
        }
    }

    /// The session after the provider has said whether the read started.
    pub open spec fn read_started(self, started: Result<OperationHandle, ProviderError>) -> (
        SessionData,
        StreamStep,
    ) {
        let (read, step, failed) = self.read.started(started);
        let next = SessionData { read, ..self };
        (
            if failed {
                next.degraded()
            } else {
                next
            },
            step,
        )
    }

    /// The session after a look at the read, for a poll with room for
    /// `capacity` bytes, and what that look settled. Of the bytes that came,
    /// as many go out as the poll has room for; the others are kept, in
    /// order, for the polls that follow.
    pub open spec fn read_polled(self, capacity: usize, outcome: Poll<Result<Vec<u8>, ProviderError>>) -> (
        SessionData,
        Settled,
    ) {
        let (read, settled) = self.read.settled(read_progress(outcome));
        let next = SessionData { read, ..self };
        match (settled, outcome) {
            (Settled::Delivered, Poll::Ready(Ok(bytes))) => {
                let held = self.received + bytes@;
                (
                    SessionData { received: held.skip(fitting(capacity, held.len()) as int), ..next },
                    settled,
                )
            },
            (Settled::Failed, _) => (next.degraded(), settled),
            _ => (next, settled),
        }
    }

    /// The answer to the poll for which the read was looked at.
    pub open spec fn read_answer(self, capacity: usize, outcome: Poll<Result<Vec<u8>, ProviderError>>) -> Poll<
        Seq<u8>,
    > {
        match (self.read.settled(read_progress(outcome)).1, outcome) {
            (Settled::Delivered, Poll::Ready(Ok(bytes))) => {
                let held = self.received + bytes@;
                Poll::Ready(held.take(fitting(capacity, held.len()) as int))
            },
            _ => Poll::Pending,
        }
    }

    /// The session after a write poll with `len` bytes to send, and what the
    /// embedder does next. A count that the session still holds is reported
    /// first, as far as the poll offers bytes; a native write is asked for
    /// only when nothing is left to report.
    pub open spec fn poll_write(self, len: usize) -> (SessionData, StreamStep) {
        if self.is_ready() && len > 0 && self.written > 0 {
            let count = fitting(len, self.written as nat);
            (
                SessionData { written: (self.written - count) as usize, ..self },
                StreamStep::Ready { len: count },
            )
        } else {
            let (write, step) = self.write.polled(self.is_ready(), len);
            (SessionData { write, ..self }, step)
        }
    }

    /// The session after the provider has said whether the write started.
    pub open spec fn write_started(self, started: Result<OperationHandle, ProviderError>) -> (
        SessionData,
        StreamStep,
    ) {
        let (write, step, failed) = self.write.started(started);
        let next = SessionData { write, ..self };
        (
            if failed {
                next.degraded()
            } else {
                next
            },
            step,
        )
    }

    /// The session after a look at the write, for a poll that offers `len`
    /// bytes, and what that look settled. Of the bytes written, as many are
    /// reported as the poll offers; the rest of the count is kept for the
    /// polls that follow.
    pub open spec fn write_polled(self, len: usize, seen: Progress) -> (SessionData, Settled) {
        let (write, settled) = self.write.settled(seen);
        let next = SessionData { write, ..self };
        match (settled, seen) {
            (Settled::Delivered, Progress::Moved(moved)) => {
                let held = counted(self.written, moved);
                (
                    SessionData { written: (held - fitting(len, held as nat)) as usize, ..next },
                    settled,
                )
            },
            (Settled::Failed, _) => (next.degraded(), settled),
            _ => (next, settled),
        }
    }

    /// The answer to the poll for which the write was looked at.
    pub open spec fn write_answer(self, len: usize, seen: Progress) -> Poll<usize> {
        match (self.write.settled(seen).1, seen) {
            (Settled::Delivered, Progress::Moved(moved)) => Poll::Ready(
                fitting(len, counted(self.written, moved) as nat),
            ),
            _ => Poll::Pending,
        }
    }

    /// What a flush waits for: nothing, unless a write is under way.
    pub open spec fn flush_step(self) -> FlushStep {
        match self.write {
            Slot::Empty => FlushStep::Ready,
            Slot::Starting { .. } => FlushStep::Pending,
            Slot::Outstanding { op, .. } => FlushStep::Check { op },
        }
    }

    /// The session after an answer, and what the embedder does next.
    ///
    /// An answer counts only if it carries the number of the current attempt
    /// and is the one that the current stage waits for. Each stage's failure
    /// ends the attempt with that stage's error.
    pub open spec fn on_reply(self, attempt: u64, reply: ProviderReply) -> (SessionData, ConnectStep) {
        if attempt != self.attempt {
            self.ignore(reply)
        } else {
            match (self.state, reply) {
                (SessionState::ResolvingDevice, ProviderReply::Device(Ok(device))) => {
                    if self.need_pairing {
                        self.proceed(
                            SessionState::Pairing { device, requested: false },
                            ProviderCall::QueryPairing { device },
                        )
                    } else {
                        self.seek_service(device)
                    }
                },
                (SessionState::ResolvingDevice, ProviderReply::Device(Err(failure))) => {
                    self.fail(classified(failure, BluetoothError::DeviceNotFound, false))
                },
                (
                    SessionState::Pairing { device, requested: false },
                    ProviderReply::Pairing(Ok(pairing)),
                ) => {
                    if pairing.can_pair && !pairing.is_paired {
                        self.proceed(
                            SessionState::Pairing { device, requested: true },
                            ProviderCall::Pair { device, kind: PairingKind::ConfirmOnly },
                        )
                    } else {
                        self.seek_service(device)
                    }
                },
                (
                    SessionState::Pairing { requested: false, .. },
                    ProviderReply::Pairing(Err(failure)),
                ) => { self.fail(classified(failure, BluetoothError::DeviceNotPairing, false)) },
                (
                    SessionState::Pairing { device, requested: true },
                    ProviderReply::Paired(Ok(_)),
                ) => { self.seek_service(device) },
                (
                    SessionState::Pairing { requested: true, .. },
                    ProviderReply::Paired(Err(failure)),
                ) => { self.fail(classified(failure, BluetoothError::DeviceNotPairing, false)) },
                (SessionState::ResolvingService { .. }, ProviderReply::Services(Ok(found))) => {
                    if found@.len() == 0 {
                        self.fail(BluetoothError::ServiceNotFound)
                    } else {
                        self.proceed(
                            SessionState::Connecting,
                            ProviderCall::ConnectSocket { service: found@[0] },
                        )
                    }
                },
                (SessionState::ResolvingService { .. }, ProviderReply::Services(Err(failure))) => {
                    self.fail(classified(failure, BluetoothError::ServiceNotFound, false))
                },
                (SessionState::Connecting, ProviderReply::Socket(Ok(socket))) => {
                    (
                        SessionData { state: SessionState::Ready, socket: Some(socket), ..self },
                        ConnectStep::Finished(Ok(socket)),
                    )
                },
                (SessionState::Connecting, ProviderReply::Socket(Err(failure))) => {
                    self.fail(classified(failure, BluetoothError::NotConnected, true))
                },
                _ => self.ignore(reply),
            }
        }
    }
}

/// Whether two answers say the same: they are equal, but for the list of
/// services, of which only the contents count.
pub open spec fn same_reply(one: ProviderReply, other: ProviderReply) -> bool {
    match (one, other) {
        (ProviderReply::Services(Ok(found)), ProviderReply::Services(Ok(listed))) => found@
            == listed@,
        _ => one == other,
    }
}

/// What came of a whole attempt.
#[derive(Debug, PartialEq, Eq)]
pub struct Attempt {
    /// The socket of the connection before, to be closed.
    pub close: Option<SocketHandle>,
    /// The socket of the new connection, or why there is none.
    pub result: Result<SocketHandle, BluetoothError>,
}

/// What the provider would answer to each call of one attempt.
#[derive(Debug, PartialEq, Eq)]
pub struct Answers {
    pub device: Result<DeviceHandle, ProviderError>,
    pub pairing: Result<PairingState, ProviderError>,
    pub paired: Result<(), ProviderError>,
    pub services: Result<Vec<ServiceHandle>, ProviderError>,
    pub socket: Result<SocketHandle, ProviderError>,
}

impl Answers {
    /// How many calls the attempt makes before it ends: one for each stage
    /// that it reaches.
    pub open spec fn calls(self, need_pairing: bool) -> nat {
        if self.device is Err {
            1
        } else {
            let paired: nat = if !need_pairing {
                1
            } else if self.pairing matches Ok(pairing) && pairing.can_pair && !pairing.is_paired {
                3
            } else {
                2
            };
            if self.pairing_result(need_pairing) is Err {
                paired
            } else if self.services matches Ok(found) && found@.len() > 0 {
                paired + 2
            } else {
                paired + 1
            }
        }
    }

    /// The answer to `call`.
    pub open spec fn to(self, call: ProviderCall) -> ProviderReply {
        match call {
            ProviderCall::ResolveDevice { .. } => ProviderReply::Device(self.device),
            ProviderCall::QueryPairing { .. } => ProviderReply::Pairing(self.pairing),
            ProviderCall::Pair { .. } => ProviderReply::Paired(self.paired),
            ProviderCall::FindServices { .. } => ProviderReply::Services(self.services),
            ProviderCall::ConnectSocket { .. } => ProviderReply::Socket(self.socket),
        }
    }

    /// What pairing comes to: nothing to do unless pairing is asked for, the
    /// device can be paired and is not paired yet.
    pub open spec fn pairing_result(self, need_pairing: bool) -> Result<(), BluetoothError> {
        if !need_pairing {
            Ok(())
        } else {
            match self.pairing {
                Err(failure) => Err(classified(failure, BluetoothError::DeviceNotPairing, false)),
                Ok(pairing) => if pairing.can_pair && !pairing.is_paired {
                    match self.paired {
                        Ok(_) => Ok(()),
                        Err(failure) => Err(
                            classified(failure, BluetoothError::DeviceNotPairing, false),
                        ),
                    }
                } else {
                    Ok(())
                },
            }
        }
    }

    /// What an attempt comes to: the socket, or the error of the first stage
    /// that fails. The stages are the device, pairing, the service (the
    /// first that the provider lists), and the socket.
    pub open spec fn connect_result(self, need_pairing: bool) -> Result<SocketHandle, BluetoothError> {
        match self.device {
            Err(failure) => Err(classified(failure, BluetoothError::DeviceNotFound, false)),
            Ok(_) => match self.pairing_result(need_pairing) {
                Err(error) => Err(error),
                Ok(_) => match self.services {
                    Err(failure) => Err(classified(failure, BluetoothError::ServiceNotFound, false)),
                    Ok(found) => if found@.len() == 0 {
                        Err(BluetoothError::ServiceNotFound)
                    } else {
                        match self.socket {
                            Err(failure) => Err(
                                classified(failure, BluetoothError::NotConnected, true),
                            ),
                            Ok(socket) => Ok(socket),
                        }
                    },
                },
            },
        }
    }
}

impl SessionData {
    /// The session once the call `call` and every call after it has been
    /// answered from `answers`, and what the attempt ended with. `calls`
    /// bounds the number of calls.
    pub open spec fn driven(self, call: ProviderCall, answers: Answers, calls: nat) -> (
        SessionData,
        Option<Result<SocketHandle, BluetoothError>>,
    )
        decreases calls,
    {
        if calls == 0 {
            (self, None)
        } else {
            let (next, step) = self.on_reply(self.attempt, answers.to(call));
            match step {
                ConnectStep::Call { call: following, .. } => next.driven(
                    following,
                    answers,
                    (calls - 1) as nat,
                ),
                ConnectStep::Finished(result) => (next, Some(result)),
                ConnectStep::Ignored { .. } => (next, None),
            }
        }
    }
}

} // verus!
