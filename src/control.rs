use vstd::prelude::*;
use vstd::string::StringSliceAdditionalSpecFns;

use crate::error::{classify_errno, spec_classify_errno, Error};
use crate::flags::{
    clear_up_running, flags_are_up, lemma_clear_up_running, lemma_set_up_running, other_bits,
    set_up_running, spec_clear_up_running, spec_flags_are_up, spec_set_up_running,
};
use crate::request::{valid_name, InterfaceRequest, RequestView};

verus! {

/// The administrative state that a session brings an interface to.
#[derive(Clone, Copy, Debug, PartialEq, Eq, Structural)]
pub enum Goal {
    Up,
    Down,
}

/// Where a session stands.
#[derive(Clone, Copy, Debug, PartialEq, Eq, Structural)]
pub enum Stage {
    /// Reading the flags to see whether anything is to be done.
    Probing,
    /// Reading the flags afresh before changing them.
    Rereading,
    /// Writing the changed flags.
    Writing,
    /// Nothing more to do.
    Finished,
}

/// What the operating system answered to the last action.
#[derive(Clone, Copy, Debug, PartialEq, Eq, Structural)]
pub enum Event {
    /// The flags were read.
    FlagsRead(u16),
    /// Reading the flags failed with this error code.
    ReadFailed(i32),
    /// The flags were written.
    Written,
    /// Writing the flags failed with this error code.
    WriteFailed(i32),
}

/// What the caller is to do next.
#[derive(Clone, Copy, Debug, PartialEq, Eq, Structural)]
pub enum Action {
    /// Read the interface's flags into the session's request record.
    ReadFlags,
    /// Write these flags to the interface with the session's request record.
    WriteFlags(u16),
    /// The interface is in the state asked for.
    Done,
    /// The session ended with this error.
    Failed(Error),
}

/// Whether flags already show the state that `goal` asks for.
pub open spec fn goal_met(goal: Goal, bits: u16) -> bool {
    match goal {
        Goal::Up => spec_flags_are_up(bits),
        Goal::Down => !spec_flags_are_up(bits),
    }
}

/// The flags to write to reach `goal` from `bits`.
pub open spec fn goal_flags(goal: Goal, bits: u16) -> u16 {
    match goal {
        Goal::Up => spec_set_up_running(bits),
        Goal::Down => spec_clear_up_running(bits),
    }
}

/// What a session holds: its goal, its stage and its request record.
pub struct SessionView {
    pub goal: Goal,
    pub stage: Stage,
    pub request: RequestView,
}

/// Whether a session at `stage` expects `event`.
pub open spec fn spec_accepts(stage: Stage, event: Event) -> bool {
    match stage {
        Stage::Probing | Stage::Rereading => event is FlagsRead || event is ReadFailed,
        Stage::Writing => event is Written || event is WriteFailed,
        Stage::Finished => false,
    }
}

/// The session after `event`, and the action that follows.
pub open spec fn next(v: SessionView, event: Event) -> (SessionView, Action) {
    let finished = SessionView { stage: Stage::Finished, ..v };
    match (v.stage, event) {
        (Stage::Probing, Event::FlagsRead(bits)) => if goal_met(v.goal, bits) {
            (finished, Action::Done)
        } else {
            (SessionView { stage: Stage::Rereading, ..v }, Action::ReadFlags)
        },
        (Stage::Rereading, Event::FlagsRead(bits)) => {
            let w = goal_flags(v.goal, bits);
            (
                SessionView {
                    stage: Stage::Writing,
                    request: RequestView { flags: w, ..v.request },
                    ..v
                },
                Action::WriteFlags(w),
            )
        },
        (_, Event::ReadFailed(code)) => (finished, Action::Failed(spec_classify_errno(code))),
        (_, Event::Written) => (finished, Action::Done),
        (_, Event::WriteFailed(code)) => (finished, Action::Failed(Error::SystemIo(code))),
        (_, Event::FlagsRead(_)) => (finished, Action::Done),
    }
}

/// The decisions that bring one interface up or down: read the flags, stop
/// when they already show the goal, else read them afresh, change the up and
/// running bits and write them back. The caller performs each action against
/// the operating system and hands the answer back as an event.
pub struct FlagSession {
    goal: Goal,
    stage: Stage,
    request: InterfaceRequest,
}

impl View for FlagSession {
    type V = SessionView;

    closed spec fn view(&self) -> SessionView {
        SessionView { goal: self.goal, stage: self.stage, request: self.request@ }
    }
}

impl FlagSession {
    /// A session that brings the interface `name` to `goal`; its first action
    /// is to read the flags. Fails with `InvalidName` when the name does not
    /// fit a request record.
    pub fn new(goal: Goal, name: &str) -> (r: Result<FlagSession, Error>)
        ensures
            r.is_ok() == valid_name(name.spec_bytes()),
            r matches Ok(s) ==> s@.goal == goal && s@.stage == Stage::Probing
                && s@.request.name() == name.spec_bytes() && s@.request.flags == 0,
            r matches Err(e) ==> e == Error::InvalidName,
    {
        match InterfaceRequest::from_name(name) {
            Ok(request) => Ok(FlagSession { goal, stage: Stage::Probing, request }),
            Err(e) => Err(e),
        }
    }

    /// The action that the session waits on.
    pub fn pending(&self) -> (r: Action)
        ensures
            r == (match self@.stage {
                Stage::Probing | Stage::Rereading => Action::ReadFlags,
                Stage::Writing => Action::WriteFlags(self@.request.flags),
                Stage::Finished => Action::Done,
            }),
    {
        match self.stage {
            Stage::Probing | Stage::Rereading => Action::ReadFlags,
            Stage::Writing => Action::WriteFlags(self.request.flags()),
            Stage::Finished => Action::Done,
        }
    }

    /// The request record that reads and writes go through.
    pub fn request(&self) -> (r: &InterfaceRequest)
        ensures
            r@ == self@.request,
    {
        &self.request
    }

    /// Whether the session expects `event` now.
    pub fn accepts(&self, event: Event) -> (r: bool)
        ensures
            r == spec_accepts(self@.stage, event),
    {
        match self.stage {
            Stage::Probing | Stage::Rereading => match event {
                Event::FlagsRead(_) | Event::ReadFailed(_) => true,
                _ => false,
            },
            Stage::Writing => match event {
                Event::Written | Event::WriteFailed(_) => true,
                _ => false,
            },
            Stage::Finished => false,
        }
    }

    /// Takes the answer to the pending action and decides the next one.
    pub fn step(&mut self, event: Event) -> (r: Action)
        requires
            spec_accepts(old(self)@.stage, event),
        ensures
            (final(self)@, r) == next(old(self)@, event),
    {
        match event {
            Event::FlagsRead(bits) => {
                if self.stage == Stage::Probing {
                    let met = match self.goal {
                        Goal::Up => flags_are_up(bits),
                        Goal::Down => !flags_are_up(bits),
                    };
                    if met {
                        self.stage = Stage::Finished;
                        Action::Done
                    } else {
                        self.stage = Stage::Rereading;
                        Action::ReadFlags
                    }
                } else {
                    let w = match self.goal {
                        Goal::Up => set_up_running(bits),
                        Goal::Down => clear_up_running(bits),
                    };
                    self.request.set_flags(w);
                    self.stage = Stage::Writing;
                    Action::WriteFlags(w)
                }
            },
            Event::ReadFailed(code) => {
                self.stage = Stage::Finished;
                Action::Failed(classify_errno(code))
            },
            Event::Written => {
                self.stage = Stage::Finished;
                Action::Done
            },
            Event::WriteFailed(code) => {
                self.stage = Stage::Finished;
                Action::Failed(Error::SystemIo(code))
            },
        }
    }
}

/// The flags that a read answers, as the request record holding them, or the
/// error that a failed read means.
pub fn read_outcome(request: InterfaceRequest, read: Result<u16, i32>) -> (r: Result<
    InterfaceRequest,
    Error,
>)
    ensures
        match read {
            Ok(bits) => r matches Ok(q) && q@.name_field == request@.name_field && q@.flags
                == bits,
            Err(code) => r matches Err(e) && e == spec_classify_errno(code),
        },
{
    match read {
        Ok(bits) => {
            let mut request = request;
            request.set_flags(bits);
            Ok(request)
        },
        Err(code) => Err(classify_errno(code)),
    }
}

/// Whether a read shows the interface up, or the error that a failed read
/// means.
pub fn is_up_outcome(read: Result<u16, i32>) -> (r: Result<bool, Error>)
    ensures
        r == match read {
            Ok(bits) => Ok(spec_flags_are_up(bits)),
            Err(code) => Err(spec_classify_errno(code)),
        },
{
    match read {
        Ok(bits) => Ok(flags_are_up(bits)),
        Err(code) => Err(classify_errno(code)),
    }
}

/// The flags an interface holds after a session that succeeded, where the
/// probe read `probe` and, if it went on, the second read gave `reread`.
pub open spec fn flags_after(goal: Goal, probe: u16, reread: u16) -> u16 {
    if goal_met(goal, probe) {
        probe
    } else {
        goal_flags(goal, reread)
    }
}

/// A session run from its start: it ends at the probe when the flags already
/// show the goal, and otherwise reads again, writes the flags of
/// `flags_after` and, once they are written, is done.
pub proof fn lemma_session_run(v: SessionView, probe: u16, reread: u16)
    requires
        v.stage == Stage::Probing,
    ensures
        ({
            let (v1, a1) = next(v, Event::FlagsRead(probe));
            if goal_met(v.goal, probe) {
                a1 == Action::Done && v1.stage == Stage::Finished && flags_after(
                    v.goal,
                    probe,
                    reread,
                ) == probe
            } else {
                let (v2, a2) = next(v1, Event::FlagsRead(reread));
                let (v3, a3) = next(v2, Event::Written);
                a1 == Action::ReadFlags && a2 == Action::WriteFlags(
                    flags_after(v.goal, probe, reread),
                ) && v2.request.flags == flags_after(v.goal, probe, reread) && a3
                    == Action::Done && v3.stage == Stage::Finished
            }
        }),
{
}

/// After bringing an interface up, it reads as up.
pub proof fn lemma_up_then_is_up(probe: u16, reread: u16)
    ensures
        spec_flags_are_up(flags_after(Goal::Up, probe, reread)),
{
    lemma_set_up_running(reread);
}

/// After bringing an interface down, it does not read as up.
pub proof fn lemma_down_then_is_down(probe: u16, reread: u16)
    ensures
        !spec_flags_are_up(flags_after(Goal::Down, probe, reread)),
{
    lemma_clear_up_running(reread);
}

/// Bringing an interface up twice leaves the same flags as once, and the
/// second session ends at its probe without writing.
pub proof fn lemma_up_idempotent(v: SessionView, probe: u16, reread: u16, reread2: u16)
    requires
        v.goal == Goal::Up,
        v.stage == Stage::Probing,
    ensures
        flags_after(Goal::Up, flags_after(Goal::Up, probe, reread), reread2) == flags_after(
            Goal::Up,
            probe,
            reread,
        ),
        next(v, Event::FlagsRead(flags_after(Goal::Up, probe, reread))).1 == Action::Done,
{
    lemma_up_then_is_up(probe, reread);
}

/// Bringing down an interface that is already down ends at the probe with
/// nothing written.
pub proof fn lemma_down_when_down_writes_nothing(v: SessionView, bits: u16)
    requires
        v.goal == Goal::Down,
        v.stage == Stage::Probing,
        !spec_flags_are_up(bits),
    ensures
        next(v, Event::FlagsRead(bits)) == (
        SessionView { stage: Stage::Finished, ..v },
        Action::Done,
    ),
{
}

/// Bringing an interface up or down changes no bit but up and running: the
/// flags written keep every other bit of the flags read before them, and when
/// the interface does not change between the reads, the flags after the
/// session keep every other bit of the flags before it.
pub proof fn lemma_other_bits_kept(v: SessionView, probe: u16, reread: u16)
    requires
        v.stage == Stage::Rereading,
    ensures
        next(v, Event::FlagsRead(reread)).1 matches Action::WriteFlags(w) && other_bits(w)
            == other_bits(reread),
        other_bits(flags_after(v.goal, probe, probe)) == other_bits(probe),
{
    lemma_set_up_running(reread);
    lemma_clear_up_running(reread);
    lemma_set_up_running(probe);
    lemma_clear_up_running(probe);
}

} // verus!
