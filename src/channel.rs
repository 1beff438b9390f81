use vstd::prelude::*;

verus! {

/// The message that the background producer sends to the editor window.
#[derive(Clone, Copy, Debug, PartialEq, Eq, Structural)]
pub enum Message {
    Hello,
}

/// Number of messages that a channel holds at most.
pub const CHANNEL_CAPACITY: usize = 128;

/// A bounded first-in first-out queue of messages, kept as a ring of
/// `CHANNEL_CAPACITY` slots. The producer pushes at the tail, the consumer
/// pops at the head; neither ever waits.
pub struct MessageChannel<T> {
    slots: Vec<Option<T>>,
    head: usize,
    len: usize,
}

impl<T> MessageChannel<T> {
    /// Position in the ring of the `i`-th queued message.
    closed spec fn slot(self, i: int) -> int {
        if self.head + i < CHANNEL_CAPACITY {
            self.head + i
        } else {
            self.head + i - CHANNEL_CAPACITY
        }
    }

    closed spec fn value_at(self, i: int) -> T {
        match self.slots@[self.slot(i)] {
            Some(v) => v,
            None => arbitrary(),
        }
    }

    /// The ring has its fixed size, and every queued position holds a message.
    pub closed spec fn wf(self) -> bool {
        &&& self.slots@.len() == CHANNEL_CAPACITY
        &&& self.head < CHANNEL_CAPACITY
        &&& self.len <= CHANNEL_CAPACITY
        &&& forall|i: int| 0 <= i < self.len ==> (#[trigger] self.slots@[self.slot(i)]).is_some()
    }
}

impl<T> View for MessageChannel<T> {
    type V = Seq<T>;

    /// The queued messages, oldest first.
    closed spec fn view(&self) -> Seq<T> {
        Seq::new(self.len as nat, |i: int| self.value_at(i))
    }
}

impl<T: Copy> MessageChannel<T> {
    /// An empty channel.
    pub fn new() -> (r: Self)
        ensures
            r.wf(),
            r@ == Seq::<T>::empty(),
    {
        let mut slots: Vec<Option<T>> = Vec::new();
        while slots.len() < CHANNEL_CAPACITY
            invariant
                slots@.len() <= CHANNEL_CAPACITY,
            decreases CHANNEL_CAPACITY - slots@.len(),
        {
            slots.push(None);
        }
        let r = MessageChannel { slots, head: 0, len: 0 };
        assert(r@ =~= Seq::<T>::empty());
        r
    }

    /// Number of queued messages.
    pub fn len(&self) -> (r: usize)
        requires
            self.wf(),
        ensures
            r == self@.len(),
    {
        self.len
    }

    /// Appends `msg` at the tail. On a full channel nothing changes and
    /// `msg` comes back as the error; the queued messages are kept.
    pub fn push(&mut self, msg: T) -> (r: Result<(), T>)
        requires
            old(self).wf(),
        ensures
            pushed(*old(self), msg, *final(self), r),
    {
        if self.len == CHANNEL_CAPACITY {
            return Err(msg);
        }
        let tail: usize = if self.head + self.len < CHANNEL_CAPACITY {
            self.head + self.len
        } else {
            self.head + self.len - CHANNEL_CAPACITY
        };
        assert(tail == self.slot(self.len as int));
        self.slots.set(tail, Some(msg));
        self.len = self.len + 1;
        assert forall|i: int| 0 <= i < self.len implies (#[trigger] self.slots@[self.slot(
            i,
        )]).is_some() by {
            if i < old(self).len {
                assert(old(self).slots@[old(self).slot(i)].is_some());
            }
        }
        assert(self@ =~= old(self)@.push(msg));
        Ok(())
    }

    /// Removes and returns the message at the head; `None` on an empty
    /// channel, which is left as it was.
    pub fn pop(&mut self) -> (r: Option<T>)
        requires
            old(self).wf(),
        ensures
            final(self).wf(),
            old(self)@.len() == 0 ==> r == None::<T> && final(self)@ == old(self)@,
            old(self)@.len() > 0 ==> r == Some(old(self)@[0]) && final(self)@ == old(
                self,
            )@.drop_first(),
    {
        if self.len == 0 {
            return None;
        }
        let slot = self.slots[self.head];
        proof {
            assert(old(self).slots@[old(self).slot(0)].is_some());
        }
        self.slots.set(self.head, None);
        self.head = if self.head + 1 == CHANNEL_CAPACITY {
            0
        } else {
            self.head + 1
        };
        self.len = self.len - 1;
        assert forall|i: int| 0 <= i < self.len implies (#[trigger] self.slots@[self.slot(
            i,
        )]).is_some() by {
            assert(old(self).slots@[old(self).slot(i + 1)].is_some());
        }
        assert forall|i: int| 0 <= i < self.len implies #[trigger] self.value_at(i) == old(
            self,
        ).value_at(i + 1) by {
            assert(self.slot(i) == old(self).slot(i + 1));
        }
        assert(self@ =~= old(self)@.drop_first());
        match slot {
            Some(v) => Some(v),
            None => None,
        }
    }
}

impl<T: Copy> MessageChannel<T> {
    /// Pops until the channel is empty and returns what came out, in the
    /// order it was pushed.
    pub fn drain(&mut self) -> (r: Vec<T>)
        requires
            old(self).wf(),
        ensures
            final(self).wf(),
            final(self)@ == Seq::<T>::empty(),
            r@ == old(self)@,
    {
        let mut out: Vec<T> = Vec::new();
        loop
            invariant
                self.wf(),
                out@ + self@ == old(self)@,
            ensures
                self.wf(),
                self@ == Seq::<T>::empty(),
                out@ == old(self)@,
            decreases self@.len(),
        {
            let ghost before = self@;
            match self.pop() {
                Some(m) => {
                    out.push(m);
                    assert(out@ + self@ =~= old(self)@) by {
                        assert(before =~= seq![m] + self@);
                        assert(out@ + self@ =~= out@.drop_last() + before);
                    }
                },
                None => {
                    assert(out@ =~= old(self)@);
                    assert(self@ =~= Seq::<T>::empty());
                    break;
                },
            }
        }
        out
    }
}

/// What `push` does to a well-formed channel: `after` and `r` are the
/// channel and result after `before.push(msg)`.
pub open spec fn pushed<T>(before: MessageChannel<T>, msg: T, after: MessageChannel<T>, r: Result<(), T>) -> bool {
    &&& after.wf()
    &&& before@.len() == CHANNEL_CAPACITY ==> r == Err::<(), T>(msg) && after@ == before@
    &&& before@.len() < CHANNEL_CAPACITY ==> r == Ok::<(), T>(()) && after@ == before@.push(msg)
}

/// Messages pushed into a channel that does not fill up come out of one
/// drain in the order they were pushed, each once, none lost.
pub proof fn lemma_fifo_delivery<T>(
    c0: MessageChannel<T>,
    m1: T,
    c1: MessageChannel<T>,
    r1: Result<(), T>,
    m2: T,
    c2: MessageChannel<T>,
    r2: Result<(), T>,
    m3: T,
    c3: MessageChannel<T>,
    r3: Result<(), T>,
    drained: Seq<T>,
)
    requires
        c0.wf(),
        c0@.len() + 3 <= CHANNEL_CAPACITY,
        pushed(c0, m1, c1, r1),
        pushed(c1, m2, c2, r2),
        pushed(c2, m3, c3, r3),
        drained == c3@,
    ensures
        r1 is Ok && r2 is Ok && r3 is Ok,
        drained == c0@ + seq![m1, m2, m3],
{
    assert(drained =~= c0@ + seq![m1, m2, m3]);
}

} // verus!
