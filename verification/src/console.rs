//! The log that the console shows.

use vstd::prelude::*;

verus! {

/// A queue of log lines that takes lines only while a console listens.
#[derive(Debug)]
pub struct Logger {
    queue: Option<Vec<String>>,
}

impl View for Logger {
    /// The lines that wait to be shown, oldest first; `None` while nothing
    /// listens.
    type V = Option<Seq<String>>;

    closed spec fn view(&self) -> Option<Seq<String>> {
        match self.queue {
            Some(lines) => Some(lines@),
            None => None,
        }
    }
}

impl Logger {
    /// A logger that nothing listens to.
    pub fn new() -> (logger: Self)
        ensures
            logger@ is None,
    {
        Logger { queue: None }
    }

    /// Starts to take lines. Lines that waited are dropped.
    pub fn enable(&mut self)
        ensures
            final(self)@ == Some(Seq::<String>::empty()),
    {
        self.queue = Some(Vec::new());
    }

    /// Stops taking lines and drops those that waited.
    pub fn disable(&mut self)
        ensures
            final(self)@ is None,
    {
        self.queue = None;
    }

    /// Adds `line` behind the lines that wait; drops it while nothing listens.
    pub fn log(&mut self, line: String)
        ensures
            final(self)@ == match old(self)@ {
                Some(lines) => Some(lines.push(line)),
                None => None,
            },
    {
        match self.queue.take() {
            Some(mut lines) => {
                lines.push(line);
                self.queue = Some(lines);
            },
            None => {},
        }
    }

    /// Hands out the lines that wait, oldest first, and leaves none behind;
    /// `None` while nothing listens.
    pub fn full_logs(&mut self) -> (logs: Option<Vec<String>>)
        ensures
            match old(self)@ {
                Some(lines) => {
                    &&& logs matches Some(taken) && taken@ == lines
                    &&& final(self)@ == Some(Seq::<String>::empty())
                },
                None => logs is None && final(self)@ is None,
            },
    {
        match self.queue.take() {
            Some(lines) => {
                self.queue = Some(Vec::new());
                Some(lines)
            },
            None => None,
        }
    }
}

} // verus!
