use vstd::prelude::*;

verus! {

/// Why a send was refused. The refused item is handed back to the caller
/// in either case: a full or closed queue never swallows data.
pub enum SendError<T> {
    /// The queue is at capacity. The caller must hold the item and retry
    /// once the consumer has freed space: this is the backpressure
    /// boundary of the gateway.
    Full(T),
    /// The queue was closed; no further item will ever be accepted.
    Closed(T),
}

/// Outcome of one receive attempt.
pub enum RecvResult<T> {
    /// The oldest buffered item.
    Item(T),
    /// Nothing buffered, but the queue is still open.
    Empty,
    /// Nothing buffered and the queue is closed: the consumer has drained
    /// everything and may exit.
    Disconnected,
}

/// A bounded FIFO channel between the handlers and one writer worker.
/// Items are delivered in the order they were accepted; a send onto a
/// full queue is refused, never dropped.
pub struct OutputQueue<T> {
    items: Vec<T>,
    capacity: usize,
    closed: bool,
}

impl<T> OutputQueue<T> {
    /// The buffered items, oldest first.
    pub closed spec fn items(&self) -> Seq<T> {
        self.items@
    }

    /// The fixed capacity the queue was created with.
    pub closed spec fn cap(&self) -> int {
        self.capacity as int
    }

    pub closed spec fn is_closed(&self) -> bool {
        self.closed
    }

    pub open spec fn wf(&self) -> bool {
        self.items().len() <= self.cap()
    }

    pub fn new(capacity: usize) -> (q: Self)
        requires
            capacity >= 1,
        ensures
            q.wf(),
            q.items() == Seq::<T>::empty(),
            q.cap() == capacity as int,
            !q.is_closed(),
    {
        OutputQueue { items: Vec::new(), capacity, closed: false }
    }

    pub fn len(&self) -> (n: usize)
        ensures
            n == self.items().len(),
    {
        self.items.len()
    }

    /// Accepts the item if the queue is open and below capacity; otherwise
    /// hands it back, with the queue unchanged.
    pub fn try_send(&mut self, t: T) -> (r: Result<(), SendError<T>>)
        requires
            old(self).wf(),
        ensures
            final(self).wf(),
            final(self).cap() == old(self).cap(),
            final(self).is_closed() == old(self).is_closed(),
            match r {
                Ok(()) => !old(self).is_closed() && old(self).items().len() < old(self).cap()
                    && final(self).items() == old(self).items().push(t),
                Err(e) => *final(self) == *old(self) && match e {
                    SendError::Closed(u) => u == t && old(self).is_closed(),
                    SendError::Full(u) => u == t && !old(self).is_closed() && old(
                        self,
                    ).items().len() == old(self).cap(),
                },
            },
    {
        if self.closed {
            Err(SendError::Closed(t))
        } else if self.items.len() >= self.capacity {
            Err(SendError::Full(t))
        } else {
            self.items.push(t);
            Ok(())
        }
    }

    /// Removes and returns the oldest item. On an empty queue, reports
    /// whether the producer side may still deliver more (`Empty`) or the
    /// queue is closed and fully drained (`Disconnected`).
    pub fn try_recv(&mut self) -> (r: RecvResult<T>)
        ensures
            final(self).cap() == old(self).cap(),
            final(self).is_closed() == old(self).is_closed(),
            match r {
                RecvResult::Item(t) => old(self).items().len() > 0 && t == old(self).items()[0]
                    && final(self).items() == old(self).items().drop_first(),
                RecvResult::Empty => old(self).items().len() == 0 && !old(self).is_closed()
                    && *final(self) == *old(self),
                RecvResult::Disconnected => old(self).items().len() == 0 && old(self).is_closed()
                    && *final(self) == *old(self),
            },
    {
        if self.items.len() > 0 {
            let t = self.items.remove(0);
            proof {
                assert(self.items() =~= old(self).items().drop_first());
            }
            RecvResult::Item(t)
        } else if self.closed {
            RecvResult::Disconnected
        } else {
            RecvResult::Empty
        }
    }

    /// One-shot shutdown: after this, every send is refused with `Closed`,
    /// while buffered items stay available for the consumer to drain.
    pub fn close(&mut self)
        ensures
            final(self).items() == old(self).items(),
            final(self).cap() == old(self).cap(),
            final(self).is_closed(),
    {
        self.closed = true;
    }

    /// How many of the given items a send in order would accept before the
    /// queue refuses one: all of them if there is room, none if the queue
    /// is closed, and exactly the free space otherwise.
    pub open spec fn accept_count(&self, items: Seq<T>) -> int {
        if self.is_closed() {
            0
        } else if items.len() <= self.cap() - self.items().len() {
            items.len() as int
        } else {
            self.cap() - self.items().len()
        }
    }

    /// Sends the items in order until one is refused; the refused item and
    /// everything after it come back unchanged, in order. Nothing is
    /// dropped: the caller blocks on the returned remainder (by retrying
    /// once the consumer has freed capacity) rather than losing data.
    pub fn send_all(&mut self, items: Vec<T>) -> (rejected: Vec<T>)
        requires
            old(self).wf(),
        ensures
            final(self).wf(),
            final(self).cap() == old(self).cap(),
            final(self).is_closed() == old(self).is_closed(),
            final(self).items() == old(self).items() + items@.take(
                old(self).accept_count(items@),
            ),
            rejected@ == items@.skip(old(self).accept_count(items@)),
    {
        let ghost k = old(self).accept_count(items@);
        let mut rest = items;
        let mut sent: usize = 0;
        loop
            invariant
                self.wf(),
                self.cap() == old(self).cap(),
                self.is_closed() == old(self).is_closed(),
                sent <= items@.len(),
                rest@ == items@.skip(sent as int),
                self.items() == old(self).items() + items@.take(sent as int),
                sent <= k || (self.is_closed() && sent == 0),
                !self.is_closed() ==> sent <= k,
                k == old(self).accept_count(items@),
            decreases rest@.len(),
        {
            if rest.len() == 0 {
                proof {
                    assert(sent == items@.len());
                    assert(k == items@.len()) by {
                        if self.is_closed() {
                            assert(self.items() =~= old(self).items());
                        }
                    }
                    assert(items@.take(k) =~= items@);
                    assert(rest@ =~= items@.skip(k));
                }
                return rest;
            }
            let t = rest.remove(0);
            match self.try_send(t) {
                Ok(()) => {
                    proof {
                        assert(items@.take(sent + 1) =~= items@.take(sent as int).push(
                            items@[sent as int],
                        ));
                    }
                    sent = sent + 1;
                },
                Err(e) => {
                    let t = match e {
                        SendError::Full(u) => u,
                        SendError::Closed(u) => u,
                    };
                    rest.insert(0, t);
                    proof {
                        assert(rest@ =~= items@.skip(sent as int));
                        assert(sent == k) by {
                            if self.is_closed() {
                                assert(self.items() =~= old(self).items());
                            }
                        }
                    }
                    return rest;
                },
            }
        }
    }
}

} // verus!
