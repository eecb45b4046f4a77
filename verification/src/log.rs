//! A log sink that records lines instead of writing to the console, so the
//! supervisor's output can be stated exactly and inspected by the host.

use vstd::prelude::*;

verus! {

/// One recorded log line: `err` selects the error channel, `text` is the
/// full line including any prefix.
pub struct LogLine {
    pub err: bool,
    pub text: String,
}

/// An ordered record of log lines.  Its view is the sequence of
/// `(channel, text)` pairs, oldest first.
pub struct Log {
    pub entries: Vec<LogLine>,
}

impl View for Log {
    type V = Seq<(bool, Seq<char>)>;

    open spec fn view(&self) -> Seq<(bool, Seq<char>)> {
        Seq::new(self.entries@.len(), |i: int| (self.entries@[i].err, self.entries@[i].text@))
    }
}

impl Log {
    /// Creates an empty log.
    pub fn new() -> (log: Log)
        ensures
            log@ == Seq::<(bool, Seq<char>)>::empty(),
    {
        let log = Log { entries: Vec::new() };
        proof {
            assert(log@ =~= Seq::<(bool, Seq<char>)>::empty());
        }
        log
    }

    /// Appends one line to the ordinary output channel.
    pub fn info(&mut self, text: String)
        ensures
            final(self)@ == old(self)@ + seq![(false, text@)],
    {
        let ghost t = text@;
        self.entries.push(LogLine { err: false, text });
        proof {
            assert(self@ =~= old(self)@ + seq![(false, t)]);
        }
    }

    /// Appends one line to the error channel.
    pub fn error(&mut self, text: String)
        ensures
            final(self)@ == old(self)@ + seq![(true, text@)],
    {
        let ghost t = text@;
        self.entries.push(LogLine { err: true, text });
        proof {
            assert(self@ =~= old(self)@ + seq![(true, t)]);
        }
    }

    /// The number of recorded lines.
    pub fn len(&self) -> (n: usize)
        ensures
            n == self@.len(),
    {
        self.entries.len()
    }
}

} // verus!
