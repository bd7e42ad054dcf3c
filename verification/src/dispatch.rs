//! The command dispatch queue.
//!
//! Callers submit command lines here; one draining task forwards them to
//! the supervised process's input, first submitted first written, so that
//! concurrent callers never interleave their bytes. The queue is bounded: a
//! caller that finds it full must treat that as failure rather than block,
//! and a closed queue (the process is gone) refuses every submission.

use vstd::prelude::*;

verus! {

/// Why a submission was refused.
#[derive(Debug, Clone, Copy, PartialEq, Eq, Structural)]
pub enum DispatchError {
    /// The queue no longer accepts commands: the process is gone.
    QueueClosed,
    /// The queue is at its bound; the caller must fail, not wait here.
    QueueFull,
}

/// The queue: pending command lines, oldest first, a bound, and whether it
/// still accepts submissions.
pub struct DispatchQueue {
    pub items: Vec<String>,
    pub capacity: usize,
    pub open: bool,
}

impl DispatchQueue {
    /// A queue is well formed when it holds no more than its bound.
    pub open spec fn wf(self) -> bool {
        &&& self.capacity >= 1
        &&& self.items@.len() <= self.capacity
    }

    /// An empty, open queue with the given bound.
    pub fn new(capacity: usize) -> (q: DispatchQueue)
        requires
            capacity >= 1,
        ensures
            q.wf(),
            q.items@.len() == 0,
            q.capacity == capacity,
            q.open,
    {
        DispatchQueue { items: Vec::new(), capacity, open: true }
    }

    /// How many commands are pending.
    pub fn pending(&self) -> (n: usize)
        ensures
            n == self.items@.len(),
    {
        self.items.len()
    }

    /// Stops accepting submissions; pending commands stay queued.
    pub fn close(&mut self)
        ensures
            final(self).items == old(self).items,
            final(self).capacity == old(self).capacity,
            !final(self).open,
    {
        self.open = false;
    }

    /// Accepts a command at the back of the queue, or refuses it when the
    /// queue is closed or full; refused commands leave the queue untouched.
    pub fn submit(&mut self, command: &String) -> (r: Result<(), DispatchError>)
        requires
            old(self).wf(),
        ensures
            final(self).wf(),
            final(self).capacity == old(self).capacity,
            final(self).open == old(self).open,
            match r {
                Ok(()) => {
                    &&& old(self).open
                    &&& old(self).items@.len() < old(self).capacity
                    &&& final(self).items@ == old(self).items@.push(*command)
                },
                Err(DispatchError::QueueClosed) => {
                    &&& !old(self).open
                    &&& final(self).items == old(self).items
                },
                Err(DispatchError::QueueFull) => {
                    &&& old(self).open
                    &&& old(self).items@.len() == old(self).capacity
                    &&& final(self).items == old(self).items
                },
            },
    {
        if !self.open {
            return Err(DispatchError::QueueClosed);
        }
        if self.items.len() == self.capacity {
            return Err(DispatchError::QueueFull);
        }
        self.items.push(command.clone());
        Ok(())
    }

    /// Hands the draining task the oldest pending command, or `None` when
    /// nothing is pending.
    pub fn pop_next(&mut self) -> (r: Option<String>)
        requires
            old(self).wf(),
        ensures
            final(self).wf(),
            final(self).capacity == old(self).capacity,
            final(self).open == old(self).open,
            match r {
                Some(c) => {
                    &&& old(self).items@.len() > 0
                    &&& c == old(self).items@[0]
                    &&& final(self).items@ == old(self).items@.skip(1)
                },
                None => {
                    &&& old(self).items@.len() == 0
                    &&& final(self).items == old(self).items
                },
            },
    {
        if self.items.len() == 0 {
            return None;
        }
        let c = self.items.remove(0);
        proof {
            assert(self.items@ =~= old(self).items@.skip(1));
        }
        Some(c)
    }
}

/// What a run of submissions leaves in a queue that accepts all of them:
/// each command goes to the back, in submission order.
pub open spec fn spec_submit_all(items: Seq<String>, commands: Seq<String>) -> Seq<String>
    decreases commands.len(),
{
    if commands.len() == 0 {
        items
    } else {
        spec_submit_all(items.push(commands[0]), commands.skip(1))
    }
}

/// Submission order is preserved: after any run of accepted submissions the
/// queue holds the old commands, then the new ones in exactly the order
/// they were accepted, and the draining side takes them front first, so
/// commands reach the process in acceptance order.
pub proof fn lemma_dispatch_fifo(items: Seq<String>, commands: Seq<String>)
    ensures
        spec_submit_all(items, commands) == items + commands,
    decreases commands.len(),
{
    if commands.len() == 0 {
        assert(spec_submit_all(items, commands) =~= items + commands);
    } else {
        lemma_dispatch_fifo(items.push(commands[0]), commands.skip(1));
        assert(items.push(commands[0]) + commands.skip(1) =~= items + commands);
    }
}

} // verus!
