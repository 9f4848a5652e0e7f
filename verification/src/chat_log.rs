//! The append-only conversation log and its point-in-time snapshots.
//!
//! The log is the one piece of state shared between the interactive side and
//! background workers.  The surrounding application guards a value of this
//! type with a mutual-exclusion discipline and holds the guard only for the
//! duration of an `append` or a `snapshot`, never across network I/O; the
//! operations themselves are verified here as sequential functions.

use vstd::prelude::*;

use crate::message::Message;
use crate::message::MessageView;

verus! {

/// Ordered record of all messages exchanged so far.  Messages are only ever
/// appended: no operation deletes, edits or reorders entries.
pub struct ConversationLog {
    entries: Vec<Message>,
}

impl View for ConversationLog {
    type V = Seq<MessageView>;

    closed spec fn view(&self) -> Seq<MessageView> {
        Seq::new(self.entries@.len(), |i: int| self.entries@[i]@)
    }
}

impl ConversationLog {
    /// An empty log.
    pub fn new() -> (log: ConversationLog)
        ensures
            log@ == Seq::<MessageView>::empty(),
    {
        let log = ConversationLog { entries: Vec::new() };
        proof {
            assert(log@ =~= Seq::<MessageView>::empty());
        }
        log
    }

    /// How many messages the log holds.
    pub fn len(&self) -> (n: usize)
        ensures
            n == self@.len(),
    {
        self.entries.len()
    }

    /// Adds a message at the end.  Every message appended earlier keeps its
    /// position; nothing else changes.
    pub fn append(&mut self, m: Message)
        ensures
            final(self)@ == old(self)@.push(m@),
    {
        let ghost pre = self@;
        let ghost mv = m@;
        self.entries.push(m);
        proof {
            assert(self@ =~= pre.push(mv));
        }
    }

    /// An independent, ordered copy of every message appended so far.  The
    /// copy is a consistent cut: appends that happen after it returns are
    /// not visible in it.
    pub fn snapshot(&self) -> (copy: Vec<Message>)
        ensures
            crate::message::views_of(copy@) == self@,
            copy@.len() == self@.len(),
    {
        let mut copy: Vec<Message> = Vec::new();
        let n = self.entries.len();
        let mut i: usize = 0;
        while i < n
            invariant
                i <= n,
                n == self.entries@.len(),
                copy@.len() == i,
                forall|j: int| 0 <= j < i ==> copy@[j]@ == self@[j],
            decreases n - i,
        {
            copy.push(self.entries[i].clone());
            i += 1;
        }
        proof {
            assert(crate::message::views_of(copy@) =~= self@);
        }
        copy
    }
}

} // verus!
