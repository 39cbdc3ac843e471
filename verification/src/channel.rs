//! The reply channel: a bounded first-in-first-out queue of outbound
//! replies. Every dispatch task feeds it; one consumer — the Reply
//! Serializer — drains it and alone writes the transport's input stream,
//! one whole line per reply, in receipt order.

use crate::reply::{OutboundReply, OutboundReplyV};
use crate::wire::{reply_line, spec_reply_line};
use vstd::prelude::*;

verus! {

/// A bounded FIFO of replies on their way to the transport.
pub struct ReplyChannel {
    capacity: usize,
    items: Vec<OutboundReply>,
}

impl View for ReplyChannel {
    type V = Seq<OutboundReplyV>;

    /// The replies now queued, oldest first.
    closed spec fn view(&self) -> Seq<OutboundReplyV> {
        self.items@.map_values(|r: OutboundReply| r@)
    }
}

impl ReplyChannel {
    /// The queue never outgrows the bound it was created with.
    #[verifier::type_invariant]
    spec fn wf(&self) -> bool {
        self.items@.len() <= self.capacity && self.capacity > 0
    }

    /// The bound the channel was created with.
    pub closed spec fn spec_capacity(&self) -> nat {
        self.capacity as nat
    }

    /// A fresh, empty channel holding at most `capacity` replies.
    pub fn new(capacity: usize) -> (c: Self)
        requires
            capacity > 0,
        ensures
            c@ == Seq::<OutboundReplyV>::empty(),
            c.spec_capacity() == capacity,
    {
        let c = ReplyChannel { capacity, items: Vec::new() };
        proof {
            assert(c@ =~= Seq::<OutboundReplyV>::empty());
        }
        c
    }

    /// How many replies are queued now.
    pub fn len(&self) -> (n: usize)
        ensures
            n == self@.len(),
    {
        self.items.len()
    }

    /// Accepts a reply at the back of the queue, or hands it back untouched
    /// when the channel is full — the producer then waits and retries, so a
    /// burst backs producers up rather than dropping replies.
    pub fn try_enqueue(&mut self, r: OutboundReply) -> (res: Result<(), OutboundReply>)
        ensures
            final(self).spec_capacity() == old(self).spec_capacity(),
            res is Ok <==> old(self)@.len() < old(self).spec_capacity(),
            res is Ok ==> final(self)@ == old(self)@.push(r@),
            (match res {
                Err(back) => final(self)@ == old(self)@ && back == r,
                Ok(()) => true,
            }),
    {
        proof {
            use_type_invariant(&*self);
        }
        let mut items: Vec<OutboundReply> = Vec::new();
        core::mem::swap(&mut items, &mut self.items);
        let res: Result<(), OutboundReply> = if items.len() < self.capacity {
            items.push(r);
            Ok(())
        } else {
            Err(r)
        };
        core::mem::swap(&mut items, &mut self.items);
        proof {
            if res is Ok {
                assert(self@ =~= old(self)@.push(r@));
            }
        }
        res
    }

    /// Hands out the oldest queued reply, or nothing when the queue is
    /// empty.
    pub fn dequeue(&mut self) -> (r: Option<OutboundReply>)
        ensures
            final(self).spec_capacity() == old(self).spec_capacity(),
            (match r {
                Some(x) => old(self)@.len() > 0 && x@ == old(self)@[0] && final(self)@ == old(
                    self,
                )@.drop_first(),
                None => old(self)@.len() == 0 && final(self)@ == old(self)@,
            }),
    {
        proof {
            use_type_invariant(&*self);
        }
        let mut items: Vec<OutboundReply> = Vec::new();
        core::mem::swap(&mut items, &mut self.items);
        let r: Option<OutboundReply> = if items.len() == 0 {
            None
        } else {
            Some(items.remove(0))
        };
        core::mem::swap(&mut items, &mut self.items);
        proof {
            if r is Some {
                assert(self@ =~= old(self)@.drop_first());
            }
        }
        r
    }

    /// The serializer's turn of work: drains the whole queue and renders
    /// exactly one wire line per queued reply, in receipt order. The caller
    /// writes the lines one at a time and owns the stream alone.
    pub fn drain_lines(&mut self) -> (lines: Vec<String>)
        ensures
            final(self).spec_capacity() == old(self).spec_capacity(),
            final(self)@.len() == 0,
            lines@.len() == old(self)@.len(),
            forall|k: int|
                0 <= k < lines@.len() ==> (#[trigger] lines@[k])@ == spec_reply_line(
                    old(self)@[k],
                ),
    {
        let mut lines: Vec<String> = Vec::new();
        loop
            invariant
                self.spec_capacity() == old(self).spec_capacity(),
                lines@.len() + self@.len() == old(self)@.len(),
                self@ =~= old(self)@.skip(lines@.len() as int),
                forall|k: int|
                    0 <= k < lines@.len() ==> (#[trigger] lines@[k])@ == spec_reply_line(
                        old(self)@[k],
                    ),
            decreases self@.len(),
        {
            let ghost done: int = lines@.len() as int;
            match self.dequeue() {
                Some(r) => {
                    proof {
                        assert(r@ == old(self)@[done]);
                    }
                    let line = reply_line(&r);
                    lines.push(line);
                    proof {
                        assert(self@ =~= old(self)@.skip(lines@.len() as int));
                    }
                },
                None => {
                    return lines;
                },
            }
        }
    }
}

} // verus!
