use vstd::prelude::*;

verus! {

/// Unbounded, order-preserving buffer decoupling service completion from the
/// transport-sender task. Once closed, it accepts nothing more; what was
/// already queued can still be drained.
pub struct ResponseQueue<T> {
    items: Vec<T>,
    closed: bool,
    taken: Ghost<Seq<T>>,
}

impl<T> ResponseQueue<T> {
    /// What the sender task has already taken out, oldest first.
    pub closed spec fn delivered(&self) -> Seq<T> {
        self.taken@
    }

    /// What was accepted and not yet taken out, oldest first.
    pub closed spec fn queued(&self) -> Seq<T> {
        self.items@
    }

    /// Everything ever accepted, in order: first what was already delivered,
    /// then what is still queued.
    pub open spec fn sent(&self) -> Seq<T> {
        self.delivered() + self.queued()
    }

    pub closed spec fn closed(&self) -> bool {
        self.closed
    }

    pub fn new() -> (r: Self)
        ensures
            r.sent() == Seq::<T>::empty(),
            r.queued() == Seq::<T>::empty(),
            r.delivered() == Seq::<T>::empty(),
            !r.closed(),
    {
        let queue = ResponseQueue { items: Vec::new(), closed: false, taken: Ghost(Seq::empty()) };
        proof {
            assert(queue.sent() =~= Seq::<T>::empty());
        }
        queue
    }

    /// Accept a value, unless the queue was closed; a rejected value is
    /// handed back so the caller can report it lost.
    pub fn push(&mut self, value: T) -> (r: Result<(), T>)
        ensures
            final(self).closed() == old(self).closed(),
            final(self).delivered() == old(self).delivered(),
            match r {
                Ok(()) => {
                    &&& !old(self).closed()
                    &&& final(self).sent() == old(self).sent().push(value)
                    &&& final(self).queued() == old(self).queued().push(value)
                },
                Err(rejected) => {
                    &&& old(self).closed()
                    &&& rejected == value
                    &&& final(self).sent() == old(self).sent()
                    &&& final(self).queued() == old(self).queued()
                },
            },
    {
        if self.closed {
            Err(value)
        } else {
            self.items.push(value);
            proof {
                assert(self.sent() =~= old(self).sent().push(value));
            }
            Ok(())
        }
    }

    /// Refuse every further value. What is already queued stays drainable.
    pub fn close(&mut self)
        ensures
            final(self).closed(),
            final(self).sent() == old(self).sent(),
            final(self).queued() == old(self).queued(),
            final(self).delivered() == old(self).delivered(),
    {
        self.closed = true;
    }

    /// Hand the oldest queued value to the sender task.
    pub fn pop(&mut self) -> (r: Option<T>)
        ensures
            final(self).closed() == old(self).closed(),
            final(self).sent() == old(self).sent(),
            match r {
                Some(value) => {
                    &&& old(self).queued().len() > 0
                    &&& value == old(self).queued()[0]
                    &&& final(self).queued() == old(self).queued().drop_first()
                    &&& final(self).delivered() == old(self).delivered().push(value)
                },
                None => {
                    &&& old(self).queued().len() == 0
                    &&& final(self).queued() == old(self).queued()
                    &&& final(self).delivered() == old(self).delivered()
                },
            },
    {
        if self.items.len() > 0 {
            let value = self.items.remove(0);
            proof {
                self.taken@ = self.taken@.push(value);
                assert(self.sent() =~= old(self).sent());
            }
            Some(value)
        } else {
            None
        }
    }

    pub fn is_closed(&self) -> (r: bool)
        ensures
            r == self.closed(),
    {
        self.closed
    }

    pub fn is_flushed(&self) -> (r: bool)
        ensures
            r == (self.queued().len() == 0),
    {
        self.items.len() == 0
    }
}

} // verus!
