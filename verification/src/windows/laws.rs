//! What holds of a session however it is used.

use crate::common::device::BluetoothDevice;
use crate::provider::{
    OperationHandle, Progress, ProviderError, ProviderReply, SocketHandle,
};
use crate::windows::state::{
    carried_socket, counted, fitting, next_attempt, read_progress, Answers, ConnectStep,
    SessionData, SessionState, Slot, StreamStep,
};
use crate::{BluetoothError, Poll};
use std::time::Duration;
use vstd::prelude::*;

verus! {

/// One call on a session, with what was handed to it.
pub enum Input {
    Begin { device: BluetoothDevice, uuid: u128, need_pairing: bool },
    Reply { attempt: u64, reply: ProviderReply },
    Deadline { timeout: Duration },
    Close,
    PollRead { capacity: usize },
    ReadStarted { started: Result<OperationHandle, ProviderError> },
    ReadPolled { capacity: usize, outcome: Poll<Result<Vec<u8>, ProviderError>> },
    PollWrite { len: usize },
    WriteStarted { started: Result<OperationHandle, ProviderError> },
    WritePolled { len: usize, seen: Progress },
}

/// One of the two directions of the stream.
pub enum Direction {
    Reading,
    Writing,
}

impl SessionData {
    /// The session after one call.
    pub open spec fn after(self, input: Input) -> SessionData {
        match input {
            Input::Begin { device, uuid, need_pairing } => self.begun(device, uuid, need_pairing),
            Input::Reply { attempt, reply } => self.on_reply(attempt, reply).0,
            Input::Deadline { timeout } => self.abandoned(timeout),
            Input::Close => self.closed(),
            Input::PollRead { capacity } => self.poll_read(capacity).0,
            Input::ReadStarted { started } => self.read_started(started).0,
            Input::ReadPolled { capacity, outcome } => self.read_polled(capacity, outcome).0,
            Input::PollWrite { len } => self.poll_write(len).0,
            Input::WriteStarted { started } => self.write_started(started).0,
            Input::WritePolled { len, seen } => self.write_polled(len, seen).0,
        }
    }

    /// The session after a run of calls, in order.
    pub open spec fn after_all(self, inputs: Seq<Input>) -> SessionData
        decreases inputs.len(),
    {
        if inputs.len() == 0 {
            self
        } else {
            self.after_all(inputs.drop_last()).after(inputs.last())
        }
    }

    /// The slot of one direction.
    pub open spec fn slot(self, direction: Direction) -> Slot {
        match direction {
            Direction::Reading => self.read,
            Direction::Writing => self.write,
        }
    }

    /// Whether this call has the session ask for a new native operation.
    pub open spec fn asks_to_start(self, input: Input, direction: Direction) -> bool {
        match (direction, input) {
            (Direction::Reading, Input::PollRead { capacity }) => self.poll_read(capacity).1 is Start,
            (Direction::Writing, Input::PollWrite { len }) => self.poll_write(len).1 is Start,
            _ => false,
        }
    }

    /// Whether this call has the session let go of the operation it held:
    /// because it ended, or failed, or was dropped.
    pub open spec fn lets_go(self, input: Input, direction: Direction) -> bool {
        !(self.slot(direction) is Empty) && self.after(input).slot(direction) is Empty
    }

    /// How many native operations the session asked for during the run.
    pub open spec fn asked(self, inputs: Seq<Input>, direction: Direction) -> nat
        decreases inputs.len(),
    {
        if inputs.len() == 0 {
            0
        } else {
            let before = self.after_all(inputs.drop_last());
            self.asked(inputs.drop_last(), direction) + if before.asks_to_start(
                inputs.last(),
                direction,
            ) {
                1nat
            } else {
                0nat
            }
        }
    }

    /// How many native operations the session let go of during the run.
    pub open spec fn let_go(self, inputs: Seq<Input>, direction: Direction) -> nat
        decreases inputs.len(),
    {
        if inputs.len() == 0 {
            0
        } else {
            let before = self.after_all(inputs.drop_last());
            self.let_go(inputs.drop_last(), direction) + if before.lets_go(inputs.last(), direction) {
                1nat
            } else {
                0nat
            }
        }
    }

    /// Whether this call has the session take a socket as its own.
    pub open spec fn takes_socket(self, input: Input) -> bool {
        input matches Input::Reply { attempt, reply } && self.on_reply(attempt, reply).1 matches ConnectStep::Finished(
            Ok(_),
        )
    }

    /// Whether this call has the session hand its socket back to be closed.
    pub open spec fn returns_socket(self, input: Input) -> bool {
        self.socket is Some && (input is Begin || input is Close)
    }

    /// How many sockets the session took during the run.
    pub open spec fn taken(self, inputs: Seq<Input>) -> nat
        decreases inputs.len(),
    {
        if inputs.len() == 0 {
            0
        } else {
            let before = self.after_all(inputs.drop_last());
            self.taken(inputs.drop_last()) + if before.takes_socket(inputs.last()) {
                1nat
            } else {
                0nat
            }
        }
    }

    /// How many sockets the session handed back during the run.
    pub open spec fn returned(self, inputs: Seq<Input>) -> nat
        decreases inputs.len(),
    {
        if inputs.len() == 0 {
            0
        } else {
            let before = self.after_all(inputs.drop_last());
            self.returned(inputs.drop_last()) + if before.returns_socket(inputs.last()) {
                1nat
            } else {
                0nat
            }
        }
    }

    /// What every session keeps to: a ready session owns a socket, and
    /// while an attempt is under way the session owns none and keeps no
    /// operation alive.
    pub open spec fn consistent(self) -> bool {
        &&& self.state is Ready ==> self.socket is Some
        &&& self.state is Idle ==> self.socket is None
        &&& self.in_progress() ==> self.socket is None && self.read is Empty && self.write is Empty
        &&& !(self.read is Empty) ==> self.received.len() == 0
        &&& !(self.write is Empty) ==> self.written == 0
    }

    /// How far an attempt has come.
    pub open spec fn progress(self) -> nat {
        match self.state {
            SessionState::Idle => 0,
            SessionState::ResolvingDevice => 1,
            SessionState::Pairing { requested: false, .. } => 2,
            SessionState::Pairing { requested: true, .. } => 3,
            SessionState::ResolvingService { .. } => 4,
            SessionState::Connecting => 5,
            SessionState::Ready => 6,
            SessionState::Failed(_) => 7,
        }
    }
}

/// An attempt whose calls are answered one after the other ends after
/// `answers.calls(need_pairing)` answers, five at most, with the result that
/// the answers determine. The session is then ready and owns the socket, or
/// has failed with the error returned. With fewer answers the attempt has
/// not ended. Either way the session names the peer and the service of the
/// attempt.
pub proof fn law_connect_result(
    session: SessionData,
    device: BluetoothDevice,
    uuid: u128,
    need_pairing: bool,
    answers: Answers,
    budget: nat,
)
    ensures
        1 <= answers.calls(need_pairing) <= 5,
        ({
            let begun = session.begun(device, uuid, need_pairing);
            let (ended, result) = begun.driven(session.start(device).call, answers, budget);
            &&& ended.device == device
            &&& ended.uuid == uuid
            &&& ended.attempt == begun.attempt
            &&& if answers.calls(need_pairing) <= budget {
                &&& result == Some(answers.connect_result(need_pairing))
                &&& match answers.connect_result(need_pairing) {
                    Ok(socket) => ended.state is Ready && ended.socket == Some(socket),
                    Err(error) => ended.state == SessionState::Failed(error) && ended.socket is None,
                }
            } else {
                result is None && ended.in_progress() && ended.socket is None
            }
        }),
{
    reveal_with_fuel(SessionData::driven, 6);
}

/// A new session is consistent, and no call makes a consistent session
/// inconsistent.
pub proof fn law_consistent(session: SessionData, input: Input)
    ensures
        session.is_fresh() ==> session.consistent(),
        session.consistent() ==> session.after(input).consistent(),
{
}

/// After any run of calls from a new session, the session is consistent.
pub proof fn law_always_consistent(session: SessionData, inputs: Seq<Input>)
    requires
        session.is_fresh(),
    ensures
        session.after_all(inputs).consistent(),
    decreases inputs.len(),
{
    if inputs.len() == 0 {
        law_consistent(session, Input::Close);
    } else {
        law_always_consistent(session, inputs.drop_last());
        law_consistent(session.after_all(inputs.drop_last()), inputs.last());
    }
}

/// The number of operations that a slot holds: one or none.
pub open spec fn held(slot: Slot) -> nat {
    if slot is Empty {
        0
    } else {
        1
    }
}

/// The number of sockets that a session owns: one or none.
pub open spec fn owned(socket: Option<SocketHandle>) -> nat {
    if socket is Some {
        1
    } else {
        0
    }
}

/// However reads, writes, attempts and answers are interleaved, there is at
/// most one native operation in each direction that the session has asked
/// for and not let go of: exactly one while the slot is taken, none while
/// it is empty.
pub proof fn law_one_operation_in_flight(session: SessionData, inputs: Seq<Input>, direction: Direction)
    ensures
        held(session.slot(direction)) + session.asked(inputs, direction) == session.let_go(
            inputs,
            direction,
        ) + held(session.after_all(inputs).slot(direction)),
        session.slot(direction) is Empty ==> session.asked(inputs, direction) - session.let_go(
            inputs,
            direction,
        ) <= 1,
    decreases inputs.len(),
{
    if inputs.len() > 0 {
        law_one_operation_in_flight(session, inputs.drop_last(), direction);
    }
}

/// After any run of calls, a session has handed back every socket it had
/// or took, but for the one it still owns. It never owns two.
pub proof fn law_no_socket_is_lost(session: SessionData, inputs: Seq<Input>)
    requires
        session.consistent(),
    ensures
        session.after_all(inputs).consistent(),
        owned(session.socket) + session.taken(inputs) == session.returned(inputs) + owned(
            session.after_all(inputs).socket,
        ),
    decreases inputs.len(),
{
    if inputs.len() > 0 {
        law_no_socket_is_lost(session, inputs.drop_last());
        law_consistent(session.after_all(inputs.drop_last()), inputs.last());
    }
}

/// An answer never takes an attempt backwards. One that the session takes
/// moves the attempt on, or ends it: in `Ready` with the socket that came,
/// or in `Failed`. Any other answer changes nothing, and a socket that came
/// with it is handed back.
pub proof fn law_stages_in_order(session: SessionData, attempt: u64, reply: ProviderReply)
    ensures
        ({
            let (next, step) = session.on_reply(attempt, reply);
            match step {
                ConnectStep::Call { attempt: number, .. } => {
                    &&& number == session.attempt
                    &&& attempt == session.attempt
                    &&& session.in_progress()
                    &&& next.in_progress()
                    &&& next.progress() > session.progress()
                },
                ConnectStep::Finished(Ok(socket)) => {
                    &&& attempt == session.attempt
                    &&& session.state is Connecting
                    &&& next.state is Ready
                    &&& next.socket == Some(socket)
                },
                ConnectStep::Finished(Err(error)) => {
                    &&& attempt == session.attempt
                    &&& session.in_progress()
                    &&& next.state == SessionState::Failed(error)
                    &&& next.socket == session.socket
                },
                ConnectStep::Ignored { close } => {
                    &&& next == session
                    &&& close == carried_socket(reply)
                },
            }
        }),
{
}

/// Answers that come too late change nothing: those to an attempt that has
/// ended or was given up, and those to an attempt before the current one.
pub proof fn law_late_answers_are_ignored(session: SessionData, attempt: u64, reply: ProviderReply)
    ensures
        !session.in_progress() ==> session.on_reply(attempt, reply) == session.ignore(reply),
        attempt != session.attempt ==> session.on_reply(attempt, reply) == session.ignore(reply),
        next_attempt(session.attempt) != session.attempt,
{
}

/// No poll is answered with more than it has room for, and nothing is lost
/// or turned round on the way: what a read poll hands out, followed by what
/// the session keeps, is what the session held followed by what arrived.
/// A native read is asked for only when the session holds no bytes.
pub proof fn law_read_answers_fit(
    session: SessionData,
    capacity: usize,
    outcome: Poll<Result<Vec<u8>, ProviderError>>,
)
    ensures
        session.read_handed(capacity).len() <= capacity,
        session.read_handed(capacity) + session.poll_read(capacity).0.received == session.received,
        session.poll_read(capacity).1 matches StreamStep::Ready { len } ==> len
            == session.read_handed(capacity).len(),
        session.poll_read(capacity).1 is Start ==> session.received.len() == 0,
        session.read_answer(capacity, outcome) matches Poll::Ready(bytes) ==> bytes.len() <= capacity
            && (outcome matches Poll::Ready(Ok(arrived)) && bytes + session.read_polled(
            capacity,
            outcome,
        ).0.received == session.received + arrived@),
        session.read_answer(capacity, outcome) is Pending ==> session.read_polled(
            capacity,
            outcome,
        ).0.received == session.received,
{
    let held = session.received;
    let count = fitting(capacity, held.len()) as int;
    assert(held.take(count) + held.skip(count) =~= held);
    if let Poll::Ready(Ok(arrived)) = outcome {
        let all = held + arrived@;
        let fit = fitting(capacity, all.len()) as int;
        assert(all.take(fit) + all.skip(fit) =~= all);
    }
}

/// No write poll is told of more bytes than it offers, and no written byte
/// goes unreported: what a poll is told, with what the session keeps, is
/// what the session held with what was written. A native write is asked
/// for only when the session holds no count.
pub proof fn law_write_answers_fit(session: SessionData, len: usize, seen: Progress)
    ensures
        session.poll_write(len).1 matches StreamStep::Ready { len: count } ==> count <= len && count
            + session.poll_write(len).0.written == session.written,
        session.poll_write(len).1 is Start ==> session.written == 0,
        session.write_answer(len, seen) matches Poll::Ready(count) ==> count <= len && (
        seen matches Progress::Moved(moved) && count + session.write_polled(len, seen).0.written
            == counted(session.written, moved)),
        session.write_answer(len, seen) is Pending ==> session.write_polled(len, seen).0.written
            == session.written,
        seen matches Progress::Moved(moved) ==> (session.consistent() && !(session.write is Empty)
            ==> counted(session.written, moved) == moved),
{
}

/// Whether every call of the run hands an answer to the session.
pub open spec fn all_replies(inputs: Seq<Input>) -> bool {
    forall|i: int| 0 <= i < inputs.len() ==> (#[trigger] inputs[i]) is Reply
}

/// An attempt that was given up at its deadline stays given up: whatever
/// the provider answers afterwards, even a connected socket, the session
/// remains failed with `TimedOut` and takes no socket.
pub proof fn law_deadline_is_final(session: SessionData, timeout: Duration, inputs: Seq<Input>)
    requires
        session.in_progress(),
        all_replies(inputs),
    ensures
        session.abandoned(timeout).after_all(inputs) == session.abandoned(timeout),
        session.abandoned(timeout).state == SessionState::Failed(BluetoothError::TimedOut(timeout)),
        session.abandoned(timeout).taken(inputs) == 0,
    decreases inputs.len(),
{
    if inputs.len() > 0 {
        assert(all_replies(inputs.drop_last())) by {
            assert forall|i: int| 0 <= i < inputs.drop_last().len() implies (
            #[trigger] inputs.drop_last()[i]) is Reply by {
                assert(inputs[i] is Reply);
            }
        }
        law_deadline_is_final(session, timeout, inputs.drop_last());
        assert(inputs.last() is Reply);
    }
}

/// A session lets go of a native operation only when the operation has
/// ended or failed, when the provider could not start it, or when the
/// session is reset: by a new attempt, by closing, or by a poll that finds
/// the session not ready. Until then the operation, and with it the buffer
/// that the native side uses, stays as it is.
pub proof fn law_operation_kept_until_settled(session: SessionData, input: Input, direction: Direction)
    ensures
        session.lets_go(input, direction) ==> match (direction, input) {
            (_, Input::Begin { .. }) => true,
            (_, Input::Close) => true,
            (Direction::Reading, Input::PollRead { .. }) => !session.is_ready(),
            (Direction::Reading, Input::ReadStarted { started }) => session.read is Starting
                && started is Err,
            (Direction::Reading, Input::ReadPolled { outcome, .. }) => session.read is Outstanding
                && !(read_progress(outcome) is Running),
            (Direction::Writing, Input::PollWrite { .. }) => !session.is_ready(),
            (Direction::Writing, Input::WriteStarted { started }) => session.write is Starting
                && started is Err,
            (Direction::Writing, Input::WritePolled { seen, .. }) => session.write is Outstanding
                && !(seen is Running),
            _ => false,
        },
        !session.lets_go(input, direction) && session.slot(direction) is Outstanding
            ==> session.after(input).slot(direction) == session.slot(direction),
{
}

/// Readiness is lost by any failure and comes back in one way only: an
/// attempt ends with a connected socket. Nothing but the end of an attempt
/// makes a session ready, and a failure seen on the stream makes it not
/// ready at once.
pub proof fn law_ready_only_by_connecting(session: SessionData, input: Input)
    ensures
        !session.is_ready() && session.after(input).is_ready() ==> session.takes_socket(input),
        session.is_ready() && !session.after(input).is_ready() ==> match input {
            Input::Begin { .. } => true,
            Input::Close => true,
            Input::ReadStarted { started } => session.read is Starting && started is Err,
            Input::WriteStarted { started } => session.write is Starting && started is Err,
            Input::ReadPolled { outcome, .. } => session.read.settled(read_progress(outcome)).1 is Failed,
            Input::WritePolled { seen, .. } => session.write.settled(seen).1 is Failed,
            _ => false,
        },
{
}

/// Reading and writing do not wait for each other: no call on one side of
/// the stream changes the operation on the other side.
pub proof fn law_directions_are_independent(session: SessionData, input: Input)
    ensures
        input is PollRead || input is ReadStarted || input is ReadPolled ==> session.after(input).write
            == session.write && session.after(input).written == session.written,
        input is PollWrite || input is WriteStarted || input is WritePolled ==> session.after(
            input,
        ).read == session.read && session.after(input).received == session.received,
{
}

} // verus!
