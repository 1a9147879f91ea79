//! The in-memory double of a session.

use crate::common::device::{BluetoothDevice, SPP_UUID};
use crate::{timeout_result, BluetoothError, BluetoothSppSession, Poll};
use std::time::Duration;
use vstd::prelude::*;

verus! {

/// A session that echoes: every byte written can be read back, in order.
/// It connects at once, unless it is blocked; then it never connects.
pub struct MockSession {
    uuid: u128,
    device: BluetoothDevice,
    need_pairing: bool,
    blocked: bool,
    buffer: Vec<u8>,
    is_ready: bool,
}

impl MockSession {
    /// The service identifier of the latest attempt.
    pub closed spec fn service(&self) -> u128 {
        self.uuid
    }

    /// Whether the latest attempt asked for pairing.
    pub closed spec fn pairing(&self) -> bool {
        self.need_pairing
    }

    /// Whether the session is kept from connecting.
    pub closed spec fn blocked(&self) -> bool {
        self.blocked
    }

    /// The bytes written and not yet read.
    pub closed spec fn unread(&self) -> Seq<u8> {
        self.buffer@
    }

    /// Whether the next poll of a read or a flush is answered.
    pub closed spec fn ready(&self) -> bool {
        self.is_ready
    }

    pub fn new() -> (session: MockSession)
        ensures
            session.peer().name@ == Seq::<char>::empty(),
            session.peer().addr == 0,
            session.service() == SPP_UUID,
            session.pairing(),
            !session.blocked(),
            session.unread() == Seq::<u8>::empty(),
            !session.ready(),
    {
        MockSession {
            uuid: SPP_UUID,
            device: BluetoothDevice::empty(),
            need_pairing: true,
            blocked: false,
            buffer: Vec::new(),
            is_ready: false,
        }
    }

    /// Blocks the session, or lets it connect again.
    pub fn blocked_connect(&mut self, blocked: bool)
        ensures
            final(self).blocked() == blocked,
            final(self).peer() == old(self).peer(),
            final(self).service() == old(self).service(),
            final(self).pairing() == old(self).pairing(),
            final(self).unread() == old(self).unread(),
            final(self).ready() == old(self).ready(),
    {
        self.blocked = blocked;
    }

    /// One poll of an attempt to connect. The attempted values are kept
    /// whether or not the attempt ends. A blocked session answers "pending",
    /// every time; any other connects and is ready.
    pub fn poll_connect_by_uuid(&mut self, device: &BluetoothDevice, uuid: u128, need_pairing: bool) -> (answer:
        Poll<Result<(), BluetoothError>>)
        ensures
            final(self).peer() == *device,
            final(self).service() == uuid,
            final(self).pairing() == need_pairing,
            final(self).blocked() == old(self).blocked(),
            final(self).unread() == old(self).unread(),
            final(self).ready() == (old(self).ready() || !old(self).blocked()),
            answer == if old(self).blocked() {
                Poll::<Result<(), BluetoothError>>::Pending
            } else {
                Poll::Ready(Ok(()))
            },
    {
        self.device = device.clone();
        self.uuid = uuid;
        self.need_pairing = need_pairing;
        if self.blocked {
            Poll::Pending
        } else {
            self.is_ready = true;
            Poll::Ready(Ok(()))
        }
    }

    /// Settles an attempt that ran against a deadline of length `timeout`.
    /// `finished` is what the attempt ended with if it ended in time. If it
    /// did not, the result is `TimedOut` and the session is not ready.
    pub fn finish_with_deadline(&mut self, finished: Option<Result<(), BluetoothError>>, timeout: Duration) -> (result:
        Result<(), BluetoothError>)
        ensures
            result == match finished {
                Some(own) => own,
                None => Err(BluetoothError::TimedOut(timeout)),
            },
            final(self).ready() == (finished is Some && old(self).ready()),
            final(self).peer() == old(self).peer(),
            final(self).service() == old(self).service(),
            final(self).pairing() == old(self).pairing(),
            final(self).blocked() == old(self).blocked(),
            final(self).unread() == old(self).unread(),
    {
        if finished.is_none() {
            self.is_ready = false;
        }
        timeout_result(finished, timeout)
    }

    /// One poll of a read with room for `capacity` bytes. A session that is
    /// not ready becomes ready and answers "pending". A ready one hands out
    /// the oldest unread bytes, as many as fit.
    pub fn poll_read(&mut self, capacity: usize) -> (answer: Poll<Vec<u8>>)
        ensures
            final(self).peer() == old(self).peer(),
            final(self).service() == old(self).service(),
            final(self).pairing() == old(self).pairing(),
            final(self).blocked() == old(self).blocked(),
            final(self).ready(),
            match answer {
                Poll::Ready(bytes) => {
                    &&& old(self).ready()
                    &&& bytes@.len() == if capacity <= old(self).unread().len() {
                        capacity as int
                    } else {
                        old(self).unread().len() as int
                    }
                    &&& bytes@ == old(self).unread().take(bytes@.len() as int)
                    &&& final(self).unread() == old(self).unread().skip(bytes@.len() as int)
                },
                Poll::Pending => !old(self).ready() && final(self).unread() == old(self).unread(),
            },
    {
        if self.is_ready {
            let count = if capacity <= self.buffer.len() {
                capacity
            } else {
                self.buffer.len()
            };
            let mut bytes = self.buffer.split_off(count);
            core::mem::swap(&mut self.buffer, &mut bytes);
            assert(bytes@ =~= old(self).unread().take(count as int));
            assert(self.buffer@ =~= old(self).unread().skip(count as int));
            Poll::Ready(bytes)
        } else {
            self.is_ready = true;
            Poll::Pending
        }
    }

    /// One poll of a write. Every byte of `buf` is taken, at once.
    pub fn poll_write(&mut self, buf: &[u8]) -> (answer: Poll<usize>)
        ensures
            final(self).peer() == old(self).peer(),
            final(self).service() == old(self).service(),
            final(self).pairing() == old(self).pairing(),
            final(self).blocked() == old(self).blocked(),
            final(self).ready() == old(self).ready(),
            final(self).unread() == old(self).unread() + buf@,
            answer == Poll::Ready(buf.len()),
    {
        let mut index: usize = 0;
        while index < buf.len()
            invariant
                index <= buf.len(),
                self.buffer@ == old(self).buffer@ + buf@.take(index as int),
                self.device == old(self).device,
                self.uuid == old(self).uuid,
                self.need_pairing == old(self).need_pairing,
                self.blocked == old(self).blocked,
                self.is_ready == old(self).is_ready,
            decreases buf.len() - index,
        {
            self.buffer.push(buf[index]);
            assert(buf@.take(index as int).push(buf@[index as int]) =~= buf@.take(index + 1));
            index = index + 1;
        }
        assert(buf@.take(buf.len() as int) =~= buf@);
        Poll::Ready(buf.len())
    }

    /// One poll of a flush. A session that is not ready becomes ready and
    /// answers "pending".
    pub fn poll_flush(&mut self) -> (answer: Poll<()>)
        ensures
            final(self).peer() == old(self).peer(),
            final(self).service() == old(self).service(),
            final(self).pairing() == old(self).pairing(),
            final(self).blocked() == old(self).blocked(),
            final(self).unread() == old(self).unread(),
            final(self).ready(),
            answer == if old(self).ready() {
                Poll::Ready(())
            } else {
                Poll::<()>::Pending
            },
    {
        if self.is_ready {
            Poll::Ready(())
        } else {
            self.is_ready = true;
            Poll::Pending
        }
    }

    /// One poll of a shutdown. There is nothing to shut down.
    pub fn poll_shutdown(&mut self) -> (answer: Poll<()>)
        ensures
            *final(self) == *old(self),
            answer == Poll::Ready(()),
    {
        Poll::Ready(())
    }

    /// Whether the next poll of a read or a flush is answered.
    pub fn is_ready(&self) -> (ready: bool)
        ensures
            ready == self.ready(),
    {
        self.is_ready
    }
}

impl BluetoothSppSession for MockSession {
    closed spec fn peer(&self) -> BluetoothDevice {
        self.device
    }

    open spec fn stalls(&self) -> bool {
        self.blocked()
    }

    fn connect(&mut self, device: &BluetoothDevice, need_pairing: bool) -> (result: Result<
        (),
        BluetoothError,
    >)
        ensures
            result == Ok::<(), BluetoothError>(()),
            final(self).service() == SPP_UUID,
            final(self).pairing() == need_pairing,
            !final(self).blocked(),
            final(self).unread() == old(self).unread(),
            final(self).ready(),
    {
        self.connect_by_uuid(device, SPP_UUID, need_pairing)
    }

    fn connect_timeout(&mut self, device: &BluetoothDevice, need_pairing: bool, timeout: Duration) -> (result:
        Result<(), BluetoothError>)
        ensures
            result == if old(self).blocked() {
                Err(BluetoothError::TimedOut(timeout))
            } else {
                Ok::<(), BluetoothError>(())
            },
            final(self).service() == SPP_UUID,
            final(self).pairing() == need_pairing,
            final(self).blocked() == old(self).blocked(),
            final(self).unread() == old(self).unread(),
            final(self).ready() == !old(self).blocked(),
    {
        self.connect_by_uuid_timeout(device, SPP_UUID, need_pairing, timeout)
    }

    fn connect_by_uuid(&mut self, device: &BluetoothDevice, uuid: u128, need_pairing: bool) -> (result:
        Result<(), BluetoothError>)
        ensures
            result == Ok::<(), BluetoothError>(()),
            final(self).service() == uuid,
            final(self).pairing() == need_pairing,
            !final(self).blocked(),
            final(self).unread() == old(self).unread(),
            final(self).ready(),
    {
        match self.poll_connect_by_uuid(device, uuid, need_pairing) {
            Poll::Ready(result) => result,
            Poll::Pending => unreached(),
        }
    }

    fn connect_by_uuid_timeout(
        &mut self,
        device: &BluetoothDevice,
        uuid: u128,
        need_pairing: bool,
        timeout: Duration,
    ) -> (result: Result<(), BluetoothError>)
        ensures
            result == if old(self).blocked() {
                Err(BluetoothError::TimedOut(timeout))
            } else {
                Ok::<(), BluetoothError>(())
            },
            final(self).service() == uuid,
            final(self).pairing() == need_pairing,
            final(self).blocked() == old(self).blocked(),
            final(self).unread() == old(self).unread(),
            final(self).ready() == !old(self).blocked(),
    {
        let finished = match self.poll_connect_by_uuid(device, uuid, need_pairing) {
            Poll::Ready(result) => Some(result),
            Poll::Pending => None,
        };
        self.finish_with_deadline(finished, timeout)
    }

    fn device(&self) -> (device: &BluetoothDevice) {
        &self.device
    }

    fn into_device(self) -> (device: BluetoothDevice) {
        self.device
    }
}

} // verus!
