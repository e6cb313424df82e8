//! The event gate, the debounced trigger and the compile worker.

use vstd::prelude::*;
use crate::config::{commands_of, Config};
use crate::state::{Pid, State};
use crate::timelock::{admits, after_request, TimeLock};

verus! {

/// A change notification: the path that changed, if the source named one.
pub struct Event {
    pub path: Option<String>,
}

/// What a notification amounts to once its path has been looked at.
pub enum Change {
    /// The notification carried no path.
    NoPath,
    /// The path has no final component.
    NoFileName,
    /// The path ends in the file name `name`, on which the ignore
    /// predicate gave the verdict `ignorable`.
    File { name: String, ignorable: bool },
}

/// What became of a notification.
pub enum Outcome {
    /// It carried no path; nothing was done.
    NoPath,
    /// Its path has no final component; nothing was done.
    NoFileName,
    /// Its file name is ignorable; the debounce check was not reached.
    Ignored,
    /// It fell inside the debounce window of the last trigger.
    Denied,
    /// It was accepted: the worker is to be run to its end.
    Spawned(Worker),
}

/// A compile run in progress: the steps that are still to be run.
pub struct Worker {
    steps: Vec<String>,
}

impl View for Worker {
    type V = Seq<Seq<char>>;

    closed spec fn view(&self) -> Seq<Seq<char>> {
        self.steps.deep_view()
    }
}

impl Worker {
    /// Advances the run by one step.
    ///
    /// While steps remain, the first of them is handed out for the caller
    /// to run to completion, whatever its exit status, and the lock is left
    /// alone. Once none remains the run is complete: the lock is stamped
    /// with `now`, the completion time, and `None` is returned.
    pub fn step(&mut self, t: &mut TimeLock, now: i64) -> (next: Option<String>)
        ensures
            old(self)@.len() > 0 ==> {
                &&& next is Some
                &&& next->0@ == old(self)@[0]
                &&& final(self)@ == old(self)@.skip(1)
                &&& final(t)@ == old(t)@
            },
            old(self)@.len() == 0 ==> {
                &&& next is None
                &&& final(self)@ == old(self)@
                &&& final(t)@ == now
            },
    {
        if self.steps.len() > 0 {
            let first = self.steps.remove(0);
            assert(self.steps.deep_view() =~= old(self).steps.deep_view().skip(1));
            Some(first)
        } else {
            t.update(now);
            None
        }
    }

    /// The number of steps still to be run.
    pub fn remaining(&self) -> (n: usize)
        ensures
            n == self@.len(),
    {
        self.steps.len()
    }
}

/// Starts a compile run: the worker holds every step of the configured
/// sequence, or of the default sequence when none is configured.
pub fn compile(c: &Config) -> (worker: Worker)
    ensures
        worker@ == commands_of(c@),
{
    Worker { steps: c.commands() }
}

/// The debounced trigger. A request at time `now` is denied while the lock
/// holds a time later than `now - WINDOW`; otherwise the lock is stamped
/// with `now` and a worker is started.
pub fn spawn_compile(t: &mut TimeLock, c: &Config, now: i64) -> (spawned: Option<Worker>)
    ensures
        final(t)@ == after_request(old(t)@, now as int),
        admits(old(t)@, now as int) ==> {
            &&& spawned is Some
            &&& spawned->0@ == commands_of(c@)
            &&& final(t)@ == now
        },
        !admits(old(t)@, now as int) ==> {
            &&& spawned is None
            &&& final(t)@ == old(t)@
        },
{
    if t.admits(now) {
        t.update(now);
        Some(compile(c))
    } else {
        None
    }
}

/// The final component of the path `path`, as `std::path::Path::file_name`
/// finds it; `None` where the path has none.
pub uninterp spec fn final_component(path: Seq<char>) -> Option<Seq<char>>;

/// Gives the final component of `path` as `std::path::Path::file_name`
/// finds it, as text; `None` where the path has none. The contract only
/// names the result: the component is found from the text of the path
/// alone.
#[verifier::external_body]
fn file_name(path: &str) -> (name: Option<String>)
    ensures
        name is None ==> final_component(path@) is None,
        name is Some ==> final_component(path@) == Some(name->0@),
{
    match std::path::Path::new(path).file_name() {
        Some(f) => Some(f.to_string_lossy().into_owned()),
        None => None,
    }
}

/// Whether a change reaches the debounced trigger: only a change to a file
/// whose name is not ignorable does.
pub open spec fn reaches_trigger(change: Change) -> bool {
    change matches Change::File { ignorable, .. } && !ignorable
}

/// Whether `change` is what the final component `found` of a path amounts
/// to: `NoFileName` where there is none, and otherwise the file of that
/// name, with a verdict that `is_ignorable` gave on that name.
pub open spec fn judged<F: Fn(&str) -> bool>(
    found: Option<Seq<char>>,
    is_ignorable: F,
    change: Change,
) -> bool {
    match found {
        None => change is NoFileName,
        Some(component) => {
            &&& change matches Change::File { name, ignorable }
            &&& name@ == component
            &&& exists|asked: &str|
                asked@ == component && call_ensures(is_ignorable, (asked,), ignorable)
        },
    }
}

/// Whether `change` is a reading of the notification `e`: `NoPath` where
/// `e` names no path, and otherwise what the final component of its path
/// amounts to.
pub open spec fn classified<F: Fn(&str) -> bool>(e: Event, is_ignorable: F, change: Change) -> bool {
    match e.path {
        None => change is NoPath,
        Some(path) => judged(final_component(path@), is_ignorable, change),
    }
}

/// Judges the final component of a path once it has been found: without
/// one there is no file name; with one, `is_ignorable` is asked for a
/// verdict on exactly that name.
pub fn judge<F: Fn(&str) -> bool>(found: Option<String>, is_ignorable: &F) -> (change: Change)
    requires
        forall|name: &str| call_requires(is_ignorable, (name,)),
    ensures
        judged(found.deep_view(), *is_ignorable, change),
{
    match found {
        None => Change::NoFileName,
        Some(name) => {
            let ignorable = is_ignorable(name.as_str());
            Change::File { name, ignorable }
        },
    }
}

/// Looks at the path of `e`: finds its final component and judges it.
pub fn classify<F: Fn(&str) -> bool>(e: &Event, is_ignorable: &F) -> (change: Change)
    requires
        forall|name: &str| call_requires(is_ignorable, (name,)),
    ensures
        classified(*e, *is_ignorable, change),
{
    match &e.path {
        None => Change::NoPath,
        Some(p) => judge(file_name(p.as_str()), is_ignorable),
    }
}

/// What the event gate owes for `change` at time `now`, with the lock at
/// `prev` and `commands` the steps of a run: the outcome, and the time
/// `next` that the lock holds afterwards. Only a change to a file that is
/// not ignorable reaches the debounced trigger; every other change leaves
/// the lock as it is.
pub open spec fn gated(
    change: Change,
    prev: int,
    commands: Seq<Seq<char>>,
    now: int,
    outcome: Outcome,
    next: int,
) -> bool {
    match change {
        Change::NoPath => outcome is NoPath && next == prev,
        Change::NoFileName => outcome is NoFileName && next == prev,
        Change::File { ignorable, .. } => if ignorable {
            outcome is Ignored && next == prev
        } else if admits(prev, now) {
            outcome is Spawned && outcome->Spawned_0@ == commands && next == now
        } else {
            outcome is Denied && next == prev
        },
    }
}

/// The event gate on a notification that has been looked at.
pub fn gate(t: &mut TimeLock, change: &Change, c: &Config, now: i64) -> (outcome: Outcome)
    ensures
        gated(*change, old(t)@, commands_of(c@), now as int, outcome, final(t)@),
{
    match change {
        Change::NoPath => Outcome::NoPath,
        Change::NoFileName => Outcome::NoFileName,
        Change::File { name: _, ignorable } => {
            if *ignorable {
                Outcome::Ignored
            } else {
                match spawn_compile(t, c, now) {
                    Some(worker) => Outcome::Spawned(worker),
                    None => Outcome::Denied,
                }
            }
        },
    }
}

/// Handles one notification at time `now`: looks at its path, asks
/// `is_ignorable` about the file name and passes a relevant change on to
/// the debounced trigger.
///
/// The registry is left as it is by every notification, and so is the lock
/// by every notification but an accepted one. A notification without a path
/// is a no-op.
pub fn handle_event<F: Fn(&str) -> bool>(
    state: &mut State,
    t: &mut TimeLock,
    e: &Event,
    c: &Config,
    now: i64,
    is_ignorable: &F,
) -> (outcome: Outcome)
    requires
        forall|name: &str| call_requires(is_ignorable, (name,)),
    ensures
        final(state)@ == old(state)@,
        e.path is None ==> outcome is NoPath && final(t)@ == old(t)@,
        exists|change: Change|
            classified(*e, *is_ignorable, change) && gated(
                change,
                old(t)@,
                commands_of(c@),
                now as int,
                outcome,
                final(t)@,
            ),
{
    let change = classify(e, is_ignorable);
    gate(t, &change, c, now)
}

/// One turn of the consumer at time `now`. First every tracked process
/// tree is handed out for termination and the registry is emptied, whatever
/// the notification holds; then the notification is handled. The caller
/// terminates the trees before it runs a spawned worker.
pub fn on_notification<F: Fn(&str) -> bool>(
    state: &mut State,
    t: &mut TimeLock,
    e: &Event,
    c: &Config,
    now: i64,
    is_ignorable: &F,
) -> (turn: (Vec<Pid>, Outcome))
    requires
        forall|name: &str| call_requires(is_ignorable, (name,)),
    ensures
        turn.0@ == old(state)@,
        final(state)@ == Seq::<Pid>::empty(),
        exists|change: Change|
            classified(*e, *is_ignorable, change) && gated(
                change,
                old(t)@,
                commands_of(c@),
                now as int,
                turn.1,
                final(t)@,
            ),
{
    let doomed = state.drain_and_kill();
    let outcome = handle_event(state, t, e, c, now, is_ignorable);
    (doomed, outcome)
}

/// A notification without a path is a no-op, and a change to an ignorable
/// file never reaches the debounce check: neither starts a run nor is
/// denied, and the lock stays as it is, whatever it holds and whatever the
/// time is.
pub proof fn lemma_gate_filters_first(
    change: Change,
    prev: int,
    commands: Seq<Seq<char>>,
    now: int,
    outcome: Outcome,
    next: int,
)
    requires
        gated(change, prev, commands, now, outcome, next),
        !reaches_trigger(change),
    ensures
        next == prev,
        !(outcome is Spawned),
        !(outcome is Denied),
        change is NoPath ==> outcome is NoPath,
        change is File ==> outcome is Ignored,
{
}

} // verus!
