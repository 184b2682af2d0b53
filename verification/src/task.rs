//! Register writes that an operation has planned, and how they are carried out.
//!
//! A radio operation changes the settings of the radio and plans register
//! writes. The writes are then carried out one by one: each is a control
//! transfer, repeated a few times where the device does not take it, and a
//! write that is not taken at all ends the operation.
use vstd::prelude::*;
use vstd::string::StringExecFns;

use crate::error::SdrError;
use crate::gain::Gain;
use crate::interface::Register;
use crate::usb::Retry;
use crate::usb::{failures_after, pause_after};

verus! {

/// What a register write changes in the radio once the device has taken it.
#[derive(Debug, Clone, Copy, PartialEq, Eq, Structural)]
pub enum Commit {
    Nothing,
    /// The IF gain is the step that the device now uses.
    IfGain(Gain),
    /// The RF gain is the step that the device now uses.
    RfGain(Gain),
    /// The device has stopped.
    Stopped,
}

/// A planned register write.
#[derive(Debug, Clone, Copy, PartialEq, Eq, Structural)]
pub struct RegisterWrite {
    pub reg: Register,
    pub value: u32,
    pub commit: Commit,
}

/// What an operation is for.
#[derive(Debug, Clone, Copy, PartialEq, Eq, Structural)]
pub enum TaskKind {
    /// Change a setting.
    Apply,
    /// Start a stream: a reader is spawned once every write has gone through,
    /// and the device is idle again where one has not.
    Start,
    /// Stop a stream: the reader is stopped before the first write.
    Stop,
}

/// How far an operation has come.
pub struct TaskState {
    pub kind: TaskKind,
    pub writes: Seq<RegisterWrite>,
    /// The write that is being carried out.
    pub next: nat,
    /// How often that write has failed.
    pub failures: nat,
}

impl TaskState {
    /// An operation that has yet to carry out its writes.
    pub open spec fn planned(kind: TaskKind, writes: Seq<RegisterWrite>) -> TaskState {
        TaskState { kind, writes, next: 0, failures: 0 }
    }

    /// Whether every write has gone through.
    pub open spec fn done(self) -> bool {
        self.next >= self.writes.len()
    }

    /// The operation after the device has taken the current write.
    pub open spec fn accepted(self) -> TaskState {
        TaskState { next: self.next + 1, failures: 0, ..self }
    }

    /// The operation after the device has refused the current write.
    pub open spec fn refused(self) -> TaskState {
        TaskState { failures: failures_after(self.failures), ..self }
    }
}

/// What a write that was given up says: the register, why the last attempt
/// failed, and how many there were.
pub open spec fn refusal_text(reg: Register, cause: Seq<char>) -> Seq<char> {
    reg.text() + ": "@ + cause + " (after 4 attempts)"@
}

/// The error of a write that was given up.
pub fn refusal(reg: Register, cause: &str) -> (error: SdrError)
    ensures
        error matches SdrError::CommunicationError(text) && text@ == refusal_text(reg, cause@),
{
    let mut text = String::from_str(reg.name());
    text.append(": ");
    text.append(cause);
    text.append(" (after 4 attempts)");
    SdrError::CommunicationError(text)
}

/// An operation whose register writes are being carried out.
pub struct Task {
    kind: TaskKind,
    writes: Vec<RegisterWrite>,
    next: usize,
    retry: Retry,
}

impl View for Task {
    type V = TaskState;

    closed spec fn view(&self) -> TaskState {
        TaskState {
            kind: self.kind,
            writes: self.writes@,
            next: self.next as nat,
            failures: self.retry@,
        }
    }
}

impl Task {
    pub(crate) fn new(kind: TaskKind, writes: Vec<RegisterWrite>) -> (task: Task)
        ensures
            task@ == TaskState::planned(kind, writes@),
    {
        Task { kind, writes, next: 0, retry: Retry::new() }
    }

    /// The writes of this operation, then those of another.
    pub(crate) fn followed_by(self, other: Task) -> (task: Task)
        ensures
            task@ == TaskState::planned(self@.kind, self@.writes + other@.writes),
    {
        let mut writes = self.writes;
        let mut i: usize = 0;
        while i < other.writes.len()
            invariant
                i <= other.writes@.len(),
                writes@ == self@.writes + other@.writes.take(i as int),
            decreases other.writes@.len() - i,
        {
            writes.push(other.writes[i]);
            assert(writes@ =~= self@.writes + other@.writes.take(i + 1));
            i += 1;
        }
        assert(writes@ =~= self@.writes + other@.writes);
        Task { kind: self.kind, writes, next: 0, retry: Retry::new() }
    }

    /// What the operation is for.
    pub fn kind(&self) -> (kind: TaskKind)
        ensures
            kind == self@.kind,
    {
        self.kind
    }

    /// Whether the reader has to be stopped before the first write.
    pub fn stops_reader(&self) -> (yes: bool)
        ensures
            yes == (self@.kind == TaskKind::Stop),
    {
        self.kind == TaskKind::Stop
    }

    /// The write to carry out now, if one is left.
    pub fn current(&self) -> (write: Option<RegisterWrite>)
        ensures
            write == if self@.done() {
                None
            } else {
                Some(self@.writes[self@.next as int])
            },
    {
        if self.next < self.writes.len() {
            Some(self.writes[self.next])
        } else {
            None
        }
    }

    /// How long to pause before carrying it out.
    pub fn pause_ms(&self) -> (pause: u64)
        ensures
            pause == pause_after(self@.failures),
    {
        self.retry.pause_ms()
    }

    /// Moves on to the write after the current one.
    pub(crate) fn accept(&mut self)
        requires
            !old(self)@.done(),
        ensures
            final(self)@ == old(self)@.accepted(),
    {
        assert(self.next < self.writes.len());
        self.retry = Retry::new();
        self.next = self.next + 1;
    }

    /// Counts a failure of the current write, and says whether to try again.
    pub(crate) fn refuse(&mut self) -> (again: bool)
        ensures
            final(self)@ == old(self)@.refused(),
            again == (old(self)@.refused().failures < 4),
    {
        self.retry.failed()
    }
}

/// An operation starts with its first write and no failure. A write that the
/// device takes is followed by the next one with a fresh count; one that it
/// refuses stays, with one failure more. The plan itself never changes.
pub proof fn operation_moves_on_by_one_write(
    kind: TaskKind,
    writes: Seq<RegisterWrite>,
    t: TaskState,
)
    ensures
        ({
            let start = TaskState::planned(kind, writes);
            &&& start.kind == kind && start.writes == writes
            &&& start.next == 0 && start.failures == 0
            &&& start.done() <==> writes.len() == 0
        }),
        t.done() <==> t.next >= t.writes.len(),
        t.accepted().kind == t.kind && t.accepted().writes == t.writes,
        t.accepted().next == t.next + 1 && t.accepted().failures == 0,
        t.refused().kind == t.kind && t.refused().writes == t.writes,
        t.refused().next == t.next,
        t.failures < 4 ==> t.refused().failures == t.failures + 1,
        t.failures >= 4 ==> t.refused().failures == 4,
{
}

/// A write that was given up says which register, why, and after how many
/// attempts: the text starts with the register's name, ends with the count, and
/// holds the whole cause in between.
pub proof fn refusal_names_register_and_cause(reg: Register, cause: Seq<char>)
    ensures
        ({
            let text = refusal_text(reg, cause);
            let name = reg.text();
            let end = " (after 4 attempts)"@;
            let at = (name.len() + ": "@.len()) as int;
            &&& text.len() == at + cause.len() + end.len()
            &&& text.take(name.len() as int) == name
            &&& text.subrange(name.len() as int, at) == ": "@
            &&& text.subrange(at, at + cause.len()) == cause
            &&& text.skip(at + cause.len()) == end
        }),
{
    let text = refusal_text(reg, cause);
    let name = reg.text();
    let at = (name.len() + ": "@.len()) as int;
    assert(text.take(name.len() as int) =~= name);
    assert(text.subrange(name.len() as int, at) =~= ": "@);
    assert(text.subrange(at, at + cause.len()) =~= cause);
    assert(text.skip(at + cause.len()) =~= " (after 4 attempts)"@);
}

} // verus!
