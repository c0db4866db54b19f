use async_channel::Receiver as RawReceiver;
use async_channel::Sender as RawSender;
use vstd::prelude::*;

verus! {

#[verifier::external_type_specification]
#[verifier::external_body]
#[verifier::reject_recursive_types(T)]
pub struct ExSender<T>(RawSender<T>);

#[verifier::external_type_specification]
#[verifier::external_body]
#[verifier::reject_recursive_types(T)]
pub struct ExReceiver<T>(RawReceiver<T>);

/// What one receive attempt found.
#[derive(Debug)]
pub enum Received<T> {
    /// A value arrived; values arrive in send order.
    Value(T),
    /// Nothing is buffered, but the channel is still open.
    Empty,
    /// Nothing is buffered and the channel is closed: no further value
    /// will ever arrive.
    Closed,
}

/// The sending half of a cross-thread channel.  Senders can be cloned
/// and moved to worker threads; when every sender is dropped the
/// channel closes.
#[derive(Debug)]
#[verifier::reject_recursive_types(T)]
pub struct Sender<T> {
    inner: RawSender<T>,
}

/// The receiving half of a cross-thread channel, held by the UI thread.
/// When every receiver is dropped the channel closes; values already
/// buffered can still be received after a close.
#[derive(Debug)]
#[verifier::reject_recursive_types(T)]
pub struct Receiver<T> {
    inner: RawReceiver<T>,
}

/// Factory for the cross-thread channel of the bridge.
#[derive(Debug)]
pub struct Channel;

/// Relies on async_channel::unbounded: a fresh unbounded channel whose
/// two halves share one queue.
#[verifier::external_body]
fn new_unbounded<T>() -> (r: (RawSender<T>, RawReceiver<T>)) {
    async_channel::unbounded()
}

/// Relies on async_channel::Sender::try_send: on an unbounded channel
/// it never blocks and fails exactly when the channel is closed, in
/// which case `TrySendError::into_inner` hands the unsent value back.
#[verifier::external_body]
fn try_send_raw<T>(s: &RawSender<T>, value: T) -> (r: Result<(), T>)
    ensures
        r matches Err(v) ==> v == value,
{
    match s.try_send(value) {
        Ok(()) => Ok(()),
        Err(e) => Err(e.into_inner()),
    }
}

/// Relies on async_channel::Receiver::try_recv: pops the oldest
/// buffered value, or reports the channel empty or closed.
#[verifier::external_body]
fn try_recv_raw<T>(r: &RawReceiver<T>) -> (a: Received<T>) {
    match r.try_recv() {
        Ok(v) => Received::Value(v),
        Err(async_channel::TryRecvError::Empty) => Received::Empty,
        Err(async_channel::TryRecvError::Closed) => Received::Closed,
    }
}

/// Relies on async_channel::Receiver::recv_blocking: parks the calling
/// thread until the oldest buffered value arrives, or returns `None`
/// once the channel is closed and drained.  It does not return while
/// the channel stays open and empty.
#[verifier::external_body]
fn recv_blocking_raw<T>(r: &RawReceiver<T>) -> (a: Option<T>) {
    match r.recv_blocking() {
        Ok(v) => Some(v),
        Err(_) => None,
    }
}

/// Relies on async_channel::Sender::close: closes the channel; values
/// already buffered can still be received.
#[verifier::external_body]
fn close_sender_raw<T>(s: &RawSender<T>) -> (b: bool) {
    s.close()
}

/// Relies on async_channel::Receiver::close: closes the channel; values
/// already buffered can still be received.
#[verifier::external_body]
fn close_receiver_raw<T>(r: &RawReceiver<T>) -> (b: bool) {
    r.close()
}

/// Relies on async_channel::Sender::clone: another handle to the same
/// shared queue.
#[verifier::external_body]
fn clone_sender_raw<T>(s: &RawSender<T>) -> (r: RawSender<T>) {
    s.clone()
}

/// Relies on async_channel::Receiver::clone: another handle to the same
/// shared queue.
#[verifier::external_body]
fn clone_receiver_raw<T>(r: &RawReceiver<T>) -> (c: RawReceiver<T>) {
    r.clone()
}

impl Channel {
    /// A fresh typed channel: the sender may move to worker threads,
    /// the receiver stays with the UI thread.
    pub fn new<T>() -> (r: (Sender<T>, Receiver<T>)) {
        let (s, r) = new_unbounded();
        (Sender { inner: s }, Receiver { inner: r })
    }
}

impl<T> Sender<T> {
    /// Sends `value`.  Never blocks and never fails for capacity; it
    /// fails exactly when the channel is already fully closed, handing
    /// the unsent value back.  Such a failure signals a lifetime bug
    /// and callers treat it as fatal.
    pub fn send(&self, value: T) -> (r: Result<(), T>)
        ensures
            r matches Err(v) ==> v == value,
    {
        try_send_raw(&self.inner, value)
    }

    /// Closes the channel; buffered values still drain on the receiving
    /// side.
    pub fn close(&self) -> (b: bool) {
        close_sender_raw(&self.inner)
    }
}

impl<T> Clone for Sender<T> {
    fn clone(&self) -> (r: Self) {
        Sender { inner: clone_sender_raw(&self.inner) }
    }
}

impl<T> Receiver<T> {
    /// One receive attempt, without blocking.
    pub fn try_next(&self) -> (a: Received<T>) {
        try_recv_raw(&self.inner)
    }

    /// The next value, parking the calling thread until one arrives;
    /// `None` once the channel is closed and drained.  The delivery
    /// loop around this call belongs to the UI-thread event loop.
    pub fn next_blocking(&self) -> (a: Option<T>) {
        recv_blocking_raw(&self.inner)
    }

    /// Closes the channel; buffered values still drain.
    pub fn close(&self) -> (b: bool) {
        close_receiver_raw(&self.inner)
    }
}

impl<T> Clone for Receiver<T> {
    fn clone(&self) -> (r: Self) {
        Receiver { inner: clone_receiver_raw(&self.inner) }
    }
}

} // verus!
