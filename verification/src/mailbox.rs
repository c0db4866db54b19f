use vstd::prelude::*;

verus! {

/// A send on a closed channel: a lifetime bug, treated as fatal by
/// callers.
#[derive(Debug, Clone, Copy, PartialEq, Eq, Structural)]
pub struct ChannelClosed;

/// The UI-thread side of the channel bridge, as a single-threaded
/// actor: a typed, closable queue whose deliveries happen strictly in
/// send order.  Values sent before the channel closed still drain
/// afterwards; a send after the close is refused.
#[derive(Debug)]
pub struct Mailbox<T> {
    /// The buffered values, oldest first.
    pub queue: Vec<T>,
    /// Whether the channel has been closed.
    pub closed: bool,
}

/// The queue after the elements of `vs` are sent one at a time, in
/// order.
pub open spec fn enqueue_all<T>(queue: Seq<T>, vs: Seq<T>) -> Seq<T>
    decreases vs.len(),
{
    if vs.len() == 0 {
        queue
    } else {
        enqueue_all(queue.push(vs[0]), vs.drop_first())
    }
}

/// Sending the elements of `vs` one at a time appends exactly `vs`, in
/// order: no value is lost, duplicated or reordered, so a later drain
/// delivers every one of them exactly once, in send order.
pub proof fn lemma_enqueue_all_appends<T>(queue: Seq<T>, vs: Seq<T>)
    ensures
        enqueue_all(queue, vs) == queue + vs,
    decreases vs.len(),
{
    if vs.len() == 0 {
        assert(enqueue_all(queue, vs) =~= queue + vs);
    } else {
        lemma_enqueue_all_appends(queue.push(vs[0]), vs.drop_first());
        assert(queue.push(vs[0]) + vs.drop_first() =~= queue + vs);
    }
}

impl<T> Mailbox<T> {
    /// A fresh, open, empty mailbox.
    pub fn new() -> (m: Mailbox<T>)
        ensures
            m.queue@ =~= Seq::<T>::empty(),
            !m.closed,
    {
        Mailbox { queue: Vec::new(), closed: false }
    }

    /// Sends `value`: appends it behind every value sent before.  Never
    /// blocks and never fails for capacity; it fails exactly when the
    /// channel is already closed, which is a programmer error that
    /// callers treat as fatal.
    pub fn send(&mut self, value: T) -> (r: Result<(), ChannelClosed>)
        ensures
            r is Err <==> old(self).closed,
            r is Err ==> *final(self) == *old(self),
            r is Ok ==> final(self).queue@ == old(self).queue@.push(value) && !final(self).closed,
    {
        if self.closed {
            Err(ChannelClosed)
        } else {
            self.queue.push(value);
            Ok(())
        }
    }

    /// Closes the channel.  Values already buffered stay buffered and
    /// still drain; no further value can be sent.
    pub fn close(&mut self)
        ensures
            final(self).closed,
            final(self).queue@ == old(self).queue@,
    {
        self.closed = true;
    }

    /// Delivers the next value: the oldest buffered one, whether or not
    /// the channel is closed.  Returns `None` exactly when nothing is
    /// buffered.
    pub fn take_next(&mut self) -> (r: Option<T>)
        ensures
            final(self).closed == old(self).closed,
            old(self).queue@.len() == 0 ==> r is None && final(self).queue@ == old(self).queue@,
            old(self).queue@.len() > 0 ==> (r matches Some(v) && v == old(self).queue@[0])
                && final(self).queue@ == old(self).queue@.drop_first(),
    {
        if self.queue.len() == 0 {
            None
        } else {
            let v = self.queue.remove(0);
            proof {
                assert(self.queue@ =~= old(self).queue@.drop_first());
            }
            Some(v)
        }
    }

    /// Delivers everything buffered, oldest first: exactly the values
    /// sent and not yet delivered, each exactly once, in send order.
    /// Draining works after the close as well.
    pub fn drain(&mut self) -> (r: Vec<T>)
        ensures
            r@ == old(self).queue@,
            final(self).queue@.len() == 0,
            final(self).closed == old(self).closed,
    {
        let mut out: Vec<T> = Vec::new();
        loop
            invariant
                self.closed == old(self).closed,
                out@ + self.queue@ == old(self).queue@,
            ensures
                out@ == old(self).queue@,
                self.queue@.len() == 0,
                self.closed == old(self).closed,
            decreases self.queue@.len(),
        {
            let next = self.take_next();
            match next {
                Some(v) => {
                    out.push(v);
                    proof {
                        assert(out@ + self.queue@ =~= old(self).queue@);
                    }
                },
                None => {
                    proof {
                        assert(out@ =~= out@ + self.queue@);
                    }
                    break ;
                },
            }
        }
        out
    }

    /// How many values are buffered.
    pub fn len(&self) -> (n: usize)
        ensures
            n == self.queue@.len(),
    {
        self.queue.len()
    }

    /// Whether the channel has been closed.
    pub fn is_closed(&self) -> (b: bool)
        ensures
            b == self.closed,
    {
        self.closed
    }
}

} // verus!
