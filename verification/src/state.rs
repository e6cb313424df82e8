//! The registry of process trees started by the most recent compile run.

use vstd::prelude::*;

verus! {

/// An operating-system process identifier.
pub type Pid = u32;

/// The tracked process identifiers, in the order they were recorded.
pub struct State {
    processes: Vec<Pid>,
}

impl View for State {
    type V = Seq<Pid>;

    closed spec fn view(&self) -> Seq<Pid> {
        self.processes@
    }
}

impl State {
    /// A registry that tracks nothing.
    pub fn new() -> (state: State)
        ensures
            state@ == Seq::<Pid>::empty(),
    {
        State { processes: Vec::new() }
    }

    /// Adds `pid` to the tracked identifiers. The identifier is not
    /// validated.
    pub fn record(&mut self, pid: Pid)
        ensures
            final(self)@ == old(self)@.push(pid),
    {
        self.processes.push(pid);
    }

    /// Forgets every tracked identifier without asking for a termination.
    pub fn clear(&mut self)
        ensures
            final(self)@ == Seq::<Pid>::empty(),
    {
        self.processes.clear();
    }

    /// Empties the registry and hands back, in recording order, the
    /// identifiers whose process trees the caller must terminate. The
    /// registry is empty before any termination is attempted, so no outcome
    /// of a termination can leave an identifier behind.
    pub fn drain_and_kill(&mut self) -> (doomed: Vec<Pid>)
        ensures
            doomed@ == old(self)@,
            final(self)@ == Seq::<Pid>::empty(),
    {
        let mut doomed: Vec<Pid> = Vec::new();
        std::mem::swap(&mut self.processes, &mut doomed);
        doomed
    }

    /// The number of tracked identifiers.
    pub fn len(&self) -> (n: usize)
        ensures
            n == self@.len(),
    {
        self.processes.len()
    }

    /// Whether nothing is tracked.
    pub fn is_empty(&self) -> (empty: bool)
        ensures
            empty == (self@.len() == 0),
    {
        self.processes.len() == 0
    }
}

} // verus!
