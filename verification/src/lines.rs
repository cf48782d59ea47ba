use vstd::prelude::*;
use crate::text::{decimal, u64_text};

verus! {

/// The most lines that one read prints.
pub const MAX_LINES: usize = 50_000;

/// Progress of reading a file line by line.
pub struct LineProgress {
    line: usize,
}

/// What to do with the line just read.
pub enum ReadStep {
    /// Print the line under this number, then read on.
    Print(usize),
    /// Stop reading.
    Stop,
}

impl LineProgress {
    #[verifier::type_invariant]
    spec fn wf(self) -> bool {
        self.line <= MAX_LINES
    }

    /// Number of lines printed so far.
    pub closed spec fn printed(self) -> nat {
        self.line as nat
    }

    /// Nothing printed yet.
    pub fn new() -> (r: LineProgress)
        ensures
            r.printed() == 0,
    {
        LineProgress { line: 0 }
    }

    /// Handles a read of `size` bytes: reading stops at the end of the file
    /// (`size == 0`) or once `MAX_LINES` lines have been printed; otherwise the line
    /// is printed under the current number and the count goes up by one.
    pub fn on_read(&mut self, size: usize) -> (r: ReadStep)
        ensures
            old(self).printed() >= MAX_LINES || size == 0 ==> r is Stop && final(self).printed()
                == old(self).printed(),
            old(self).printed() < MAX_LINES && size > 0 ==> r == ReadStep::Print(old(self).printed() as usize)
                && final(self).printed() == old(self).printed() + 1,
            final(self).printed() <= MAX_LINES,
    {
        proof {
            use_type_invariant(&*self);
        }
        if self.line >= MAX_LINES || size == 0 {
            ReadStep::Stop
        } else {
            let n = self.line;
            self.line = n + 1;
            ReadStep::Print(n)
        }
    }

    /// Number of lines printed so far.
    pub fn lines_printed(&self) -> (r: usize)
        ensures
            r == self.printed(),
            r <= MAX_LINES,
    {
        proof {
            use_type_invariant(self);
        }
        self.line
    }

    /// The result of the read: the number of printed lines in decimal.
    pub fn result_text(&self) -> (r: String)
        ensures
            r@ == decimal(self.printed()),
    {
        u64_text(self.line as u64)
    }
}

} // verus!
