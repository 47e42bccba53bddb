//! The two queues between the text view and its companion process: what was
//! typed and waits to be sent, and what the process has printed and waits to
//! be read.

use vstd::prelude::*;
use vstd::string::*;

verus! {

/// Bytes that the reader takes from the process's output at a time.
pub const CHUNK_SIZE: usize = 10;

/// Appends the characters of `text` to `queue`.
pub fn push_text(queue: &mut Vec<char>, text: &str)
    ensures
        final(queue)@ == old(queue)@ + text@,
{
    let ghost before = queue@;
    let n: usize = text.unicode_len();
    let mut i: usize = 0;
    while i < n
        invariant
            i <= n,
            n == text@.len(),
            queue@ == before + text@.take(i as int),
        decreases n - i,
    {
        let c: char = text.get_char(i);
        queue.push(c);
        assert(text@.take(i + 1) =~= text@.take(i as int).push(c));
        assert(queue@ =~= before + text@.take(i + 1));
        i += 1;
    }
    assert(text@.take(n as int) =~= text@);
}

/// The text on its way to and from the companion process.
#[derive(Debug)]
pub struct ProcessManager {
    /// Written, and not yet sent to the process.
    pub outgoing: Vec<char>,
    /// Printed by the process, and not yet read.
    pub incoming: Vec<char>,
}

impl ProcessManager {
    /// A manager with both queues empty.
    pub fn new() -> (r: ProcessManager)
        ensures
            r.outgoing@ == Seq::<char>::empty(),
            r.incoming@ == Seq::<char>::empty(),
    {
        ProcessManager { outgoing: Vec::new(), incoming: Vec::new() }
    }

    /// Queues `to_write` for the process, behind what is already queued.
    pub fn write(&mut self, to_write: &str)
        ensures
            final(self).outgoing@ == old(self).outgoing@ + to_write@,
            final(self).incoming@ == old(self).incoming@,
    {
        push_text(&mut self.outgoing, to_write);
    }

    /// Takes everything that the process has printed since the last read, in
    /// the order in which it arrived, without waiting for more.
    pub fn read(&mut self) -> (r: Vec<char>)
        ensures
            r@ == old(self).incoming@,
            final(self).incoming@ == Seq::<char>::empty(),
            final(self).outgoing@ == old(self).outgoing@,
    {
        let mut taken: Vec<char> = Vec::new();
        core::mem::swap(&mut taken, &mut self.incoming);
        taken
    }

    /// Queues a chunk that the process has printed, behind what is already queued.
    pub fn receive(&mut self, chunk: &str)
        ensures
            final(self).incoming@ == old(self).incoming@ + chunk@,
            final(self).outgoing@ == old(self).outgoing@,
    {
        push_text(&mut self.incoming, chunk);
    }

    /// Takes everything that waits to be sent to the process, in the order in
    /// which it was written.
    pub fn take_outgoing(&mut self) -> (r: Vec<char>)
        ensures
            r@ == old(self).outgoing@,
            final(self).outgoing@ == Seq::<char>::empty(),
            final(self).incoming@ == old(self).incoming@,
    {
        let mut taken: Vec<char> = Vec::new();
        core::mem::swap(&mut taken, &mut self.outgoing);
        taken
    }
}

} // verus!
