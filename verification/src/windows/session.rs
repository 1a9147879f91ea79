//! The session: a state that only its own methods change.

use crate::common::device::{BluetoothDevice, SPP_UUID};
use crate::provider::{
    DeviceHandle, OperationHandle, Progress, ProviderCall, ProviderError, ProviderReply,
    SocketHandle,
};
use crate::windows::laws::law_connect_result;
use crate::windows::pair::PairingKind;
use crate::windows::state::{
    carried_socket, counted, fitting, read_progress, same_reply, write_progress, Answers,
    Attempt, ConnectStart, ConnectStep, FlushStep, SessionData, SessionState, Settled, Slot,
    StreamStep,
};
use crate::windows::utils::classify;
use crate::{timeout_result, BluetoothError, Poll};
use std::time::Duration;
use vstd::prelude::*;
use vstd::slice::slice_to_vec;

verus! {

/// What the embedder does next for a poll of the reading side.
#[derive(Debug, PartialEq, Eq)]
pub enum ReadStep {
    /// Answer the poll with "pending". No native call is made.
    Pending,
    /// Answer the poll with "ready" and these bytes. No native call is made.
    Ready { bytes: Vec<u8> },
    /// Start one native read of up to `len` bytes and report how that went.
    Start { len: usize },
    /// Look at the read `op` and report what it says.
    Check { op: OperationHandle },
}

impl ReadStep {
    /// The step without the bytes.
    pub open spec fn step(self) -> StreamStep {
        match self {
            ReadStep::Pending => StreamStep::Pending,
            ReadStep::Ready { bytes } => StreamStep::Ready { len: bytes.len() },
            ReadStep::Start { len } => StreamStep::Start { len },
            ReadStep::Check { op } => StreamStep::Check { op },
        }
    }
}

/// What the embedder does next for a poll of the writing side.
#[derive(Debug, PartialEq, Eq)]
pub enum WriteStep {
    /// Answer the poll with "pending". No native call is made.
    Pending,
    /// Answer the poll with "ready" and this count. No native call is made.
    Ready { count: usize },
    /// Start one native write of exactly these bytes and report how that went.
    Start { bytes: Vec<u8> },
    /// Look at the write `op` and report what it says.
    Check { op: OperationHandle },
}

impl WriteStep {
    /// The step without the bytes.
    pub open spec fn step(self) -> StreamStep {
        match self {
            WriteStep::Pending => StreamStep::Pending,
            WriteStep::Ready { count } => StreamStep::Ready { len: count },
            WriteStep::Start { bytes } => StreamStep::Start { len: bytes.len() },
            WriteStep::Check { op } => StreamStep::Check { op },
        }
    }
}

/// A serial session with one peer. It makes no native call itself: each
/// method says which call the embedder makes next, and takes what came of
/// the call before.
pub struct WinrtSession {
    device: BluetoothDevice,
    uuid: u128,
    need_pairing: bool,
    state: SessionState,
    attempt: u64,
    socket: Option<SocketHandle>,
    read: Slot,
    write: Slot,
    received: Vec<u8>,
    written: usize,
}

impl View for WinrtSession {
    type V = SessionData;

    closed spec fn view(&self) -> SessionData {
        SessionData {
            device: self.device,
            uuid: self.uuid,
            need_pairing: self.need_pairing,
            state: self.state,
            attempt: self.attempt,
            socket: self.socket,
            read: self.read,
            write: self.write,
            received: self.received@,
            written: self.written,
        }
    }
}

/// The first `count` bytes of `held` leave it and are returned.
fn take_front(held: &mut Vec<u8>, count: usize) -> (front: Vec<u8>)
    requires
        count <= old(held)@.len(),
    ensures
        front@ == old(held)@.take(count as int),
        final(held)@ == old(held)@.skip(count as int),
{
    let mut rest = held.split_off(count);
    core::mem::swap(held, &mut rest);
    assert(rest@ =~= old(held)@.take(count as int));
    assert(held@ =~= old(held)@.skip(count as int));
    rest
}

/// The smaller of the room that a poll offers and what is held for it.
fn fit(room: usize, held: usize) -> (count: usize)
    ensures
        count == fitting(room, held as nat),
        count <= room,
        count <= held,
{
    if room <= held {
        room
    } else {
        held
    }
}

impl WinrtSession {
    pub fn new() -> (session: WinrtSession)
        ensures
            session@.is_fresh(),
    {
        WinrtSession {
            device: BluetoothDevice::empty(),
            uuid: SPP_UUID,
            need_pairing: true,
            state: SessionState::Idle,
            attempt: 0,
            socket: None,
            read: Slot::Empty,
            write: Slot::Empty,
            received: Vec::new(),
            written: 0,
        }
    }

    /// Begins an attempt to connect to the serial port service on `device`.
    pub fn begin_connect(&mut self, device: &BluetoothDevice, need_pairing: bool) -> (start:
        ConnectStart)
        ensures
            final(self)@ == old(self)@.begun(*device, SPP_UUID, need_pairing),
            start == old(self)@.start(*device),
    {
        self.begin_connect_by_uuid(device, SPP_UUID, need_pairing)
    }

    /// Begins an attempt to connect to the service `uuid` on `device`.
    /// Whatever the session had before is given up first: the socket is
    /// handed back to be closed, pending operations and held bytes are
    /// dropped, and the answers to earlier attempts no longer count. The
    /// attempted peer and service are kept, whatever comes of the attempt.
    pub fn begin_connect_by_uuid(&mut self, device: &BluetoothDevice, uuid: u128, need_pairing: bool) -> (start:
        ConnectStart)
        ensures
            final(self)@ == old(self)@.begun(*device, uuid, need_pairing),
            start == old(self)@.start(*device),
            start.close == old(self)@.socket,
            final(self)@.socket is None,
            final(self)@.device == *device,
            final(self)@.uuid == uuid,
    {
        let close = self.socket;
        let attempt = if self.attempt == u64::MAX {
            0
        } else {
            self.attempt + 1
        };
        self.device = device.clone();
        self.uuid = uuid;
        self.need_pairing = need_pairing;
        self.state = SessionState::ResolvingDevice;
        self.attempt = attempt;
        self.socket = None;
        self.read = Slot::Empty;
        self.write = Slot::Empty;
        self.received = Vec::new();
        self.written = 0;
        assert(self@ =~= old(self)@.begun(*device, uuid, need_pairing));
        ConnectStart { close, attempt, call: ProviderCall::ResolveDevice { address: device.addr } }
    }

    fn proceed(&mut self, state: SessionState, call: ProviderCall) -> (step: ConnectStep)
        ensures
            (final(self)@, step) == old(self)@.proceed(state, call),
    {
        self.state = state;
        ConnectStep::Call { attempt: self.attempt, call }
    }

    fn fail(&mut self, error: BluetoothError) -> (step: ConnectStep)
        ensures
            (final(self)@, step) == old(self)@.fail(error),
    {
        self.state = SessionState::Failed(error.clone());
        ConnectStep::Finished(Err(error))
    }

    fn seek_service(&mut self, device: DeviceHandle) -> (step: ConnectStep)
        ensures
            (final(self)@, step) == old(self)@.seek_service(device),
    {
        let service = self.uuid;
        self.proceed(
            SessionState::ResolvingService { device },
            ProviderCall::FindServices { device, uuid: service },
        )
    }

    /// Takes the answer to the call that the session asked for last, and
    /// says what comes next: the following call, or the end of the attempt.
    /// An answer that the session does not wait for changes nothing.
    pub fn on_reply(&mut self, attempt: u64, reply: ProviderReply) -> (step: ConnectStep)
        ensures
            (final(self)@, step) == old(self)@.on_reply(attempt, reply),
            step matches ConnectStep::Finished(Ok(socket)) ==> final(self)@.is_ready()
                && final(self)@.socket == Some(socket)
                && reply == ProviderReply::Socket(Ok(socket)),
            step matches ConnectStep::Finished(Err(error)) ==> final(self)@.state
                == SessionState::Failed(error),
            step matches ConnectStep::Call { attempt: number, .. } ==> number == attempt
                && final(self)@.in_progress(),
            step matches ConnectStep::Ignored { close } ==> final(self)@ == old(self)@ && close
                == carried_socket(reply),
            attempt != old(self)@.attempt || !old(self)@.in_progress() ==> step is Ignored,
            final(self)@.device == old(self)@.device,
            final(self)@.uuid == old(self)@.uuid,
    {
        if attempt != self.attempt {
            return ignore(reply);
        }
        match reply {
            ProviderReply::Device(found) => {
                if let SessionState::ResolvingDevice = self.state {
                    match classify(found, BluetoothError::DeviceNotFound, false) {
                        Ok(device) => {
                            if self.need_pairing {
                                self.proceed(
                                    SessionState::Pairing { device, requested: false },
                                    ProviderCall::QueryPairing { device },
                                )
                            } else {
                                self.seek_service(device)
                            }
                        },
                        Err(error) => self.fail(error),
                    }
                } else {
                    ConnectStep::Ignored { close: None }
                }
            },
            ProviderReply::Pairing(queried) => {
                if let SessionState::Pairing { device, requested: false } = self.state {
                    match classify(queried, BluetoothError::DeviceNotPairing, false) {
                        Ok(pairing) => {
                            if pairing.can_pair && !pairing.is_paired {
                                self.proceed(
                                    SessionState::Pairing { device, requested: true },
                                    ProviderCall::Pair { device, kind: PairingKind::ConfirmOnly },
                                )
                            } else {
                                self.seek_service(device)
                            }
                        },
                        Err(error) => self.fail(error),
                    }
                } else {
                    ConnectStep::Ignored { close: None }
                }
            },
            ProviderReply::Paired(paired) => {
                if let SessionState::Pairing { device, requested: true } = self.state {
                    match classify(paired, BluetoothError::DeviceNotPairing, false) {
                        Ok(_) => self.seek_service(device),
                        Err(error) => self.fail(error),
                    }
                } else {
                    ConnectStep::Ignored { close: None }
                }
            },
            ProviderReply::Services(found) => {
                if let SessionState::ResolvingService { device } = self.state {
                    match classify(found, BluetoothError::ServiceNotFound, false) {
                        Ok(services) => {
                            if services.len() == 0 {
                                self.fail(BluetoothError::ServiceNotFound)
                            } else {
                                self.proceed(
                                    SessionState::Connecting,
                                    ProviderCall::ConnectSocket { service: services[0] },
                                )
                            }
                        },
                        Err(error) => self.fail(error),
                    }
                } else {
                    ConnectStep::Ignored { close: None }
                }
            },
            ProviderReply::Socket(opened) => {
                if let SessionState::Connecting = self.state {
                    match classify(opened, BluetoothError::NotConnected, true) {
                        Ok(socket) => {
                            self.state = SessionState::Ready;
                            self.socket = Some(socket);
                            ConnectStep::Finished(Ok(socket))
                        },
                        Err(error) => self.fail(error),
                    }
                } else {
                    ignore(ProviderReply::Socket(opened))
                }
            },
        }
    }

    /// Answers the call `call` of the attempt under way, and every call
    /// after it, from `answers`, as long as `budget` lasts. Says what the
    /// attempt ended with, if it ended.
    fn drive(&mut self, call: ProviderCall, answers: &Answers, budget: usize) -> (finished: Option<
        Result<SocketHandle, BluetoothError>,
    >)
        ensures
            (final(self)@, finished) == old(self)@.driven(call, *answers, budget as nat),
        decreases budget,
    {
        if budget == 0 {
            return None;
        }
        let reply = reply_to(answers, call);
        let attempt = self.attempt;
        proof {
            lemma_same_reply(self@, attempt, reply, answers.to(call));
        }
        match self.on_reply(attempt, reply) {
            ConnectStep::Call { call: following, .. } => self.drive(following, answers, budget - 1),
            ConnectStep::Finished(result) => Some(result),
            ConnectStep::Ignored { .. } => None,
        }
    }

    /// Connects to the service `uuid` on `device`, with a provider whose
    /// answers are known beforehand. The attempt runs through its stages in
    /// order and ends at the first that fails.
    pub fn connect_by_uuid(&mut self, device: &BluetoothDevice, uuid: u128, need_pairing: bool, answers: &Answers) -> (attempt:
        Attempt)
        ensures
            attempt.close == old(self)@.socket,
            attempt.result == answers.connect_result(need_pairing),
            final(self)@ == old(self)@.begun(*device, uuid, need_pairing).driven(
                old(self)@.start(*device).call,
                *answers,
                5,
            ).0,
            final(self)@.device == *device,
            final(self)@.uuid == uuid,
            match attempt.result {
                Ok(socket) => final(self)@.is_ready() && final(self)@.socket == Some(socket),
                Err(error) => final(self)@.state == SessionState::Failed(error) && final(self)@.socket is None,
            },
    {
        proof {
            law_connect_result(old(self)@, *device, uuid, need_pairing, *answers, 5);
        }
        let start = self.begin_connect_by_uuid(device, uuid, need_pairing);
        match self.drive(start.call, answers, 5) {
            Some(result) => Attempt { close: start.close, result },
            None => unreached(),
        }
    }

    /// Connects to the serial port service on `device`, with a provider
    /// whose answers are known beforehand.
    pub fn connect(&mut self, device: &BluetoothDevice, need_pairing: bool, answers: &Answers) -> (attempt:
        Attempt)
        ensures
            attempt.close == old(self)@.socket,
            attempt.result == answers.connect_result(need_pairing),
            final(self)@ == old(self)@.begun(*device, SPP_UUID, need_pairing).driven(
                old(self)@.start(*device).call,
                *answers,
                5,
            ).0,
            final(self)@.device == *device,
            final(self)@.uuid == SPP_UUID,
            match attempt.result {
                Ok(socket) => final(self)@.is_ready() && final(self)@.socket == Some(socket),
                Err(error) => final(self)@.state == SessionState::Failed(error) && final(self)@.socket is None,
            },
    {
        self.connect_by_uuid(device, SPP_UUID, need_pairing, answers)
    }

    /// Connects to the service `uuid` on `device` against a deadline of
    /// length `timeout`, with a provider whose answers are known beforehand
    /// and of whose answers `in_time` come before the deadline.
    ///
    /// An attempt that needs no more answers than come in time ends with its
    /// own result. Any other is given up with `TimedOut(timeout)`, whatever
    /// it would have come to, and leaves the session failed with that error.
    pub fn connect_by_uuid_timeout(
        &mut self,
        device: &BluetoothDevice,
        uuid: u128,
        need_pairing: bool,
        timeout: Duration,
        answers: &Answers,
        in_time: usize,
    ) -> (attempt: Attempt)
        ensures
            attempt.close == old(self)@.socket,
            attempt.result == if answers.calls(need_pairing) <= in_time {
                answers.connect_result(need_pairing)
            } else {
                Err(BluetoothError::TimedOut(timeout))
            },
            final(self)@ == ({
                let ended = old(self)@.begun(*device, uuid, need_pairing).driven(
                    old(self)@.start(*device).call,
                    *answers,
                    in_time as nat,
                ).0;
                if answers.calls(need_pairing) <= in_time {
                    ended
                } else {
                    ended.abandoned(timeout)
                }
            }),
            final(self)@.device == *device,
            final(self)@.uuid == uuid,
            match attempt.result {
                Ok(socket) => final(self)@.is_ready() && final(self)@.socket == Some(socket),
                Err(error) => final(self)@.state == SessionState::Failed(error) && final(self)@.socket is None,
            },
    {
        proof {
            law_connect_result(old(self)@, *device, uuid, need_pairing, *answers, in_time as nat);
        }
        let start = self.begin_connect_by_uuid(device, uuid, need_pairing);
        let finished = self.drive(start.call, answers, in_time);
        let result = self.finish_with_deadline(finished, timeout);
        Attempt { close: start.close, result }
    }

    /// Connects to the serial port service on `device` against a deadline
    /// of length `timeout`, with a provider whose answers are known
    /// beforehand and of whose answers `in_time` come before the deadline.
    pub fn connect_timeout(
        &mut self,
        device: &BluetoothDevice,
        need_pairing: bool,
        timeout: Duration,
        answers: &Answers,
        in_time: usize,
    ) -> (attempt: Attempt)
        ensures
            attempt.close == old(self)@.socket,
            attempt.result == if answers.calls(need_pairing) <= in_time {
                answers.connect_result(need_pairing)
            } else {
                Err(BluetoothError::TimedOut(timeout))
            },
            final(self)@ == ({
                let ended = old(self)@.begun(*device, SPP_UUID, need_pairing).driven(
                    old(self)@.start(*device).call,
                    *answers,
                    in_time as nat,
                ).0;
                if answers.calls(need_pairing) <= in_time {
                    ended
                } else {
                    ended.abandoned(timeout)
                }
            }),
            final(self)@.device == *device,
            final(self)@.uuid == SPP_UUID,
            match attempt.result {
                Ok(socket) => final(self)@.is_ready() && final(self)@.socket == Some(socket),
                Err(error) => final(self)@.state == SessionState::Failed(error) && final(self)@.socket is None,
            },
    {
        self.connect_by_uuid_timeout(device, SPP_UUID, need_pairing, timeout, answers, in_time)
    }

    /// Settles an attempt that ran against a deadline of length `timeout`.
    /// `finished` is what the attempt ended with if it ended in time. If it
    /// did not, the result is `TimedOut` whatever the attempt would have come
    /// to, and the attempt is given up: its later answers are ignored, and a
    /// socket that comes with one is handed back to be closed.
    pub fn finish_with_deadline(
        &mut self,
        finished: Option<Result<SocketHandle, BluetoothError>>,
        timeout: Duration,
    ) -> (result: Result<SocketHandle, BluetoothError>)
        ensures
            result == match finished {
                Some(own) => own,
                None => Err(BluetoothError::TimedOut(timeout)),
            },
            final(self)@ == match finished {
                Some(_) => old(self)@,
                None => old(self)@.abandoned(timeout),
            },
    {
        if finished.is_none() && self.in_progress() {
            self.state = SessionState::Failed(BluetoothError::TimedOut(timeout));
        }
        timeout_result(finished, timeout)
    }

    /// One poll of a shutdown. It never waits: the session is closed at
    /// once and hands back the socket to release. Pending operations and
    /// held bytes are dropped, not waited for.
    pub fn poll_shutdown(&mut self) -> (answer: Poll<Option<SocketHandle>>)
        ensures
            final(self)@ == old(self)@.closed(),
            answer == Poll::Ready(old(self)@.socket),
    {
        let released = self.socket;
        self.state = SessionState::Idle;
        self.socket = None;
        self.read = Slot::Empty;
        self.write = Slot::Empty;
        self.received = Vec::new();
        self.written = 0;
        assert(self@ =~= old(self)@.closed());
        Poll::Ready(released)
    }

    fn degrade(&mut self)
        ensures
            final(self)@ == old(self)@.degraded(),
    {
        if self.is_ready() {
            self.state = SessionState::Failed(BluetoothError::NotConnected);
        }
    }

    /// One poll of the reading side, with room for `capacity` bytes.
    ///
    /// A session that is not ready starts nothing and has the poll answered
    /// with "pending". Bytes that the session holds from an earlier read go
    /// out first, in order and no more than fit. A native read is asked for
    /// only while none is held and no bytes are left.
    pub fn poll_read(&mut self, capacity: usize) -> (step: ReadStep)
        ensures
            (final(self)@, step.step()) == old(self)@.poll_read(capacity),
            step matches ReadStep::Ready { bytes } ==> bytes@ == old(self)@.read_handed(capacity)
                && bytes@.len() <= capacity && bytes@ + final(self)@.received == old(self)@.received,
            !old(self)@.is_ready() ==> step is Pending && final(self)@.read is Empty,
            step is Start ==> old(self)@.read is Empty && !(final(self)@.read is Empty) && old(self)@.received.len() == 0,
            final(self)@.is_ready() == old(self)@.is_ready(),
    {
        let ready = self.is_ready();
        if ready && capacity > 0 && self.received.len() > 0 {
            let count = fit(capacity, self.received.len());
            let bytes = take_front(&mut self.received, count);
            assert(self@ =~= old(self)@.poll_read(capacity).0);
            assert(bytes@ + self.received@ =~= old(self).received@);
            ReadStep::Ready { bytes }
        } else {
            let (read, step) = self.read.poll(ready, capacity);
            self.read = read;
            assert(self@ =~= old(self)@.poll_read(capacity).0);
            match step {
                StreamStep::Pending => ReadStep::Pending,
                StreamStep::Ready { .. } => {
                    let bytes: Vec<u8> = Vec::new();
                    assert(bytes@ =~= old(self)@.read_handed(capacity));
                    assert(bytes@ + self.received@ =~= old(self).received@);
                    ReadStep::Ready { bytes }
                },
                StreamStep::Start { len } => ReadStep::Start { len },
                StreamStep::Check { op } => ReadStep::Check { op },
            }
        }
    }

    /// Takes the provider's word on whether the read that `poll_read` asked
    /// for was started. If it was not, the session is no longer ready.
    pub fn read_started(&mut self, started: Result<OperationHandle, ProviderError>) -> (step:
        StreamStep)
        ensures
            (final(self)@, step) == old(self)@.read_started(started),
            old(self)@.read is Starting && started is Err ==> !final(self)@.is_ready()
                && final(self)@.read is Empty && step is Pending,
            !(step is Start),
            !(step is Ready),
    {
        let (read, step, failed) = self.read.start(started);
        self.read = read;
        if failed {
            self.degrade();
        }
        step
    }

    /// Takes what a look at the outstanding read has shown, for a poll with
    /// room for `capacity` bytes. Of the bytes that arrived, the poll is
    /// answered with as many as it has room for; the others stay in the
    /// session, in order, for the polls that follow. A failure makes the
    /// session not ready and the answer "pending".
    pub fn read_polled(&mut self, capacity: usize, outcome: Poll<Result<Vec<u8>, ProviderError>>) -> (answer:
        Poll<Vec<u8>>)
        ensures
            final(self)@ == old(self)@.read_polled(capacity, outcome).0,
            match answer {
                Poll::Ready(bytes) => old(self)@.read_answer(capacity, outcome) == Poll::Ready(
                    bytes@,
                ),
                Poll::Pending => old(self)@.read_answer(capacity, outcome) is Pending,
            },
            answer is Ready <==> old(self)@.read_polled(capacity, outcome).1 is Delivered,
            answer matches Poll::Ready(bytes) ==> bytes@.len() <= capacity && (
            outcome matches Poll::Ready(Ok(arrived)) && bytes@ + final(self)@.received == old(self)@.received + arrived@),
            old(self)@.read is Outstanding && read_progress(outcome) is Failed
                ==> !final(self)@.is_ready() && final(self)@.read is Empty && answer is Pending,
    {
        let seen = match &outcome {
            Poll::Pending => Progress::Running,
            Poll::Ready(Ok(bytes)) => Progress::Moved(bytes.len()),
            Poll::Ready(Err(_)) => Progress::Failed,
        };
        let (read, settled) = self.read.settle(seen);
        self.read = read;
        match settled {
            Settled::Delivered => match outcome {
                Poll::Ready(Ok(arrived)) => {
                    let mut arrived = arrived;
                    let ghost held = self.received@ + arrived@;
                    self.received.append(&mut arrived);
                    let count = fit(capacity, self.received.len());
                    let bytes = take_front(&mut self.received, count);
                    assert(self@ =~= old(self)@.read_polled(capacity, outcome).0);
                    assert(bytes@ + self.received@ =~= held);
                    Poll::Ready(bytes)
                },
                _ => Poll::Pending,
            },
            Settled::Failed => {
                self.degrade();
                Poll::Pending
            },
            Settled::Pending => Poll::Pending,
        }
    }

    /// One poll of the writing side, with `buf` to send.
    ///
    /// A session that is not ready starts nothing and has the poll answered
    /// with "pending". A count that the session holds from an earlier write
    /// is reported first, never beyond the length of `buf`. A native write
    /// is asked for only while none is held and nothing is left to report.
    pub fn poll_write(&mut self, buf: &[u8]) -> (step: WriteStep)
        ensures
            (final(self)@, step.step()) == old(self)@.poll_write(buf.len()),
            step matches WriteStep::Start { bytes } ==> bytes@ == buf@,
            step matches WriteStep::Ready { count } ==> count <= buf.len() && count + final(self)@.written == old(self)@.written,
            !old(self)@.is_ready() ==> step is Pending && final(self)@.write is Empty,
            step is Start ==> old(self)@.write is Empty && !(final(self)@.write is Empty) && old(self)@.written == 0,
            final(self)@.is_ready() == old(self)@.is_ready(),
    {
        let ready = self.is_ready();
        if ready && buf.len() > 0 && self.written > 0 {
            let count = fit(buf.len(), self.written);
            self.written = self.written - count;
            WriteStep::Ready { count }
        } else {
            let (write, step) = self.write.poll(ready, buf.len());
            self.write = write;
            match step {
                StreamStep::Pending => WriteStep::Pending,
                StreamStep::Ready { len } => WriteStep::Ready { count: len },
                StreamStep::Start { .. } => WriteStep::Start { bytes: slice_to_vec(buf) },
                StreamStep::Check { op } => WriteStep::Check { op },
            }
        }
    }

    /// Takes the provider's word on whether the write that `poll_write`
    /// asked for was started. If it was not, the session is no longer ready.
    pub fn write_started(&mut self, started: Result<OperationHandle, ProviderError>) -> (step:
        StreamStep)
        ensures
            (final(self)@, step) == old(self)@.write_started(started),
            old(self)@.write is Starting && started is Err ==> !final(self)@.is_ready()
                && final(self)@.write is Empty && step is Pending,
            !(step is Start),
            !(step is Ready),
    {
        let (write, step, failed) = self.write.start(started);
        self.write = write;
        if failed {
            self.degrade();
        }
        step
    }

    /// Takes what a look at the outstanding write has shown, for a poll that
    /// offers `len` bytes. Of the bytes that the write has written, the poll
    /// is told of as many as it offers; the rest of the count stays in the
    /// session for the polls that follow. A failure makes the session not
    /// ready and the answer "pending".
    pub fn write_polled(&mut self, len: usize, outcome: Poll<Result<usize, ProviderError>>) -> (answer:
        Poll<usize>)
        ensures
            final(self)@ == old(self)@.write_polled(len, write_progress(outcome)).0,
            answer == old(self)@.write_answer(len, write_progress(outcome)),
            answer is Ready <==> old(self)@.write_polled(len, write_progress(outcome)).1 is Delivered,
            answer matches Poll::Ready(count) ==> count <= len && (
            outcome matches Poll::Ready(Ok(moved)) && count + final(self)@.written == counted(
                old(self)@.written,
                moved,
            )),
            old(self)@.write is Outstanding && write_progress(outcome) is Failed
                ==> !final(self)@.is_ready() && final(self)@.write is Empty && answer is Pending,
    {
        let seen = match &outcome {
            Poll::Pending => Progress::Running,
            Poll::Ready(Ok(written)) => Progress::Moved(*written),
            Poll::Ready(Err(_)) => Progress::Failed,
        };
        let (write, settled) = self.write.settle(seen);
        self.write = write;
        match settled {
            Settled::Delivered => match outcome {
                Poll::Ready(Ok(moved)) => {
                    let held = if self.written <= usize::MAX - moved {
                        self.written + moved
                    } else {
                        usize::MAX
                    };
                    let count = fit(len, held);
                    self.written = held - count;
                    Poll::Ready(count)
                },
                _ => Poll::Pending,
            },
            Settled::Failed => {
                self.degrade();
                Poll::Pending
            },
            Settled::Pending => Poll::Pending,
        }
    }

    /// One poll of a flush. Nothing is held back by the session, so a flush
    /// is done as soon as no write is under way.
    pub fn poll_flush(&self) -> (step: FlushStep)
        ensures
            step == self@.flush_step(),
    {
        match self.write {
            Slot::Empty => FlushStep::Ready,
            Slot::Starting { .. } => FlushStep::Pending,
            Slot::Outstanding { op, .. } => FlushStep::Check { op },
        }
    }

    pub fn is_ready(&self) -> (ready: bool)
        ensures
            ready == self@.is_ready(),
    {
        match self.state {
            SessionState::Ready => true,
            _ => false,
        }
    }

    /// Whether an attempt is under way.
    pub fn in_progress(&self) -> (under_way: bool)
        ensures
            under_way == self@.in_progress(),
    {
        match self.state {
            SessionState::ResolvingDevice => true,
            SessionState::Pairing { .. } => true,
            SessionState::ResolvingService { .. } => true,
            SessionState::Connecting => true,
            _ => false,
        }
    }

    pub fn state(&self) -> (state: &SessionState)
        ensures
            *state == self@.state,
    {
        &self.state
    }

    /// The peer of the latest attempt.
    pub fn device(&self) -> (device: &BluetoothDevice)
        ensures
            *device == self@.device,
    {
        &self.device
    }

    /// Gives the session up for its peer. With the peer comes the socket
    /// that the session owned, to be released.
    pub fn into_device(self) -> (parts: (BluetoothDevice, Option<SocketHandle>))
        ensures
            parts.0 == self@.device,
            parts.1 == self@.socket,
    {
        (self.device, self.socket)
    }

    /// The service identifier of the latest attempt.
    pub fn uuid(&self) -> (uuid: u128)
        ensures
            uuid == self@.uuid,
    {
        self.uuid
    }

    /// The socket that the session owns.
    pub fn socket(&self) -> (socket: Option<SocketHandle>)
        ensures
            socket == self@.socket,
    {
        self.socket
    }

    /// The native read that the session keeps alive, if any.
    pub fn read_slot(&self) -> (slot: Slot)
        ensures
            slot == self@.read,
    {
        self.read
    }

    /// The native write that the session keeps alive, if any.
    pub fn write_slot(&self) -> (slot: Slot)
        ensures
            slot == self@.write,
    {
        self.write
    }

    /// How many bytes have arrived and wait to be read.
    pub fn received(&self) -> (count: usize)
        ensures
            count == self@.received.len(),
    {
        self.received.len()
    }

    /// How many bytes were written that no poll was told of yet.
    pub fn written(&self) -> (count: usize)
        ensures
            count == self@.written,
    {
        self.written
    }
}

/// A copy of an answer that carries no list.
fn copied<T: Copy>(answer: &Result<T, ProviderError>) -> (copy: Result<T, ProviderError>)
    ensures
        copy == *answer,
{
    match answer {
        Ok(value) => Ok(*value),
        Err(failure) => Err(failure.clone()),
    }
}

/// The answer to `call`, copied from `answers`.
fn reply_to(answers: &Answers, call: ProviderCall) -> (reply: ProviderReply)
    ensures
        same_reply(reply, answers.to(call)),
{
    match call {
        ProviderCall::ResolveDevice { .. } => ProviderReply::Device(copied(&answers.device)),
        ProviderCall::QueryPairing { .. } => ProviderReply::Pairing(copied(&answers.pairing)),
        ProviderCall::Pair { .. } => ProviderReply::Paired(copied(&answers.paired)),
        ProviderCall::FindServices { .. } => match &answers.services {
            Ok(found) => ProviderReply::Services(Ok(slice_to_vec(found.as_slice()))),
            Err(failure) => {
                let reply = ProviderReply::Services(Err(failure.clone()));
                assert(reply == answers.to(call));
                reply
            },
        },
        ProviderCall::ConnectSocket { .. } => ProviderReply::Socket(copied(&answers.socket)),
    }
}

/// Answers that say the same lead to the same.
proof fn lemma_same_reply(session: SessionData, attempt: u64, one: ProviderReply, other: ProviderReply)
    requires
        same_reply(one, other),
    ensures
        session.on_reply(attempt, one) == session.on_reply(attempt, other),
{
}

/// The step for an answer that the session does not take.
fn ignore(reply: ProviderReply) -> (step: ConnectStep)
    ensures
        step == (ConnectStep::Ignored { close: carried_socket(reply) }),
{
    match reply {
        ProviderReply::Socket(Ok(socket)) => ConnectStep::Ignored { close: Some(socket) },
        _ => ConnectStep::Ignored { close: None },
    }
}

} // verus!
