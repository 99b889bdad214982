//! Strict single-instance startup: a new instance reads the lock record,
//! forcibly removes a live predecessor, then records its own process id.
//!
//! The guard decides; its caller reads and writes the lock file, probes and
//! kills processes, and reports each outcome.
use vstd::prelude::*;
use crate::text::{decimal, decimal_text, lemma_parse_decimal, parse_number, parse_u32};

verus! {

/// Why the lock could not be taken.
#[derive(Debug, Clone, Copy, PartialEq, Eq, Structural)]
pub enum AcquireError {
    /// The lock file exists but could not be read.
    LockUnreadable,
    /// The lock file could not be written.
    LockUnwritable,
}

/// What the caller is to do next.
#[derive(Debug, Clone, Copy, PartialEq, Eq, Structural)]
pub enum AcquireStep {
    /// Read the lock file and report with `on_lock_read`.
    ReadLock,
    /// Check whether the process is alive and report with `on_probe`.
    ProbeHolder(u32),
    /// Kill the process without grace and report with `on_kill`.
    KillHolder(u32),
    /// Check whether the process has left the process table and report with
    /// `on_exit_check`.
    AwaitExit(u32),
    /// Write `lock_record()` to the lock file and report with `on_write`.
    WriteLock(u32),
    Acquired,
    Failed(AcquireError),
}

/// The outcome of reading the lock file.
pub enum LockRead {
    Absent,
    Text(String),
    Unreadable,
}

/// Its abstract content.
pub enum LockReadView {
    Absent,
    Text(Seq<char>),
    Unreadable,
}

impl View for LockRead {
    type V = LockReadView;

    open spec fn view(&self) -> LockReadView {
        match self {
            LockRead::Absent => LockReadView::Absent,
            LockRead::Text(t) => LockReadView::Text(t@),
            LockRead::Unreadable => LockReadView::Unreadable,
        }
    }
}

/// The step after reading the lock file: a record naming another process
/// leads to probing it; no record, or one that names no process (no number,
/// or 0) or this process, leads straight to writing.
pub open spec fn after_read(me: u32, read: LockReadView) -> AcquireStep {
    match read {
        LockReadView::Unreadable => AcquireStep::Failed(AcquireError::LockUnreadable),
        LockReadView::Absent => AcquireStep::WriteLock(me),
        LockReadView::Text(t) => match parse_u32(t) {
            Some(q) => if q != me && q != 0 {
                AcquireStep::ProbeHolder(q)
            } else {
                AcquireStep::WriteLock(me)
            },
            None => AcquireStep::WriteLock(me),
        },
    }
}

pub open spec fn after_probe(me: u32, step: AcquireStep, alive: bool) -> AcquireStep {
    match step {
        AcquireStep::ProbeHolder(q) => if alive {
            AcquireStep::KillHolder(q)
        } else {
            AcquireStep::WriteLock(me)
        },
        _ => step,
    }
}

/// A kill that fails is not fatal: the takeover goes on to write the lock.
pub open spec fn after_kill(me: u32, step: AcquireStep, delivered: bool) -> AcquireStep {
    match step {
        AcquireStep::KillHolder(q) => if delivered {
            AcquireStep::AwaitExit(q)
        } else {
            AcquireStep::WriteLock(me)
        },
        _ => step,
    }
}

pub open spec fn after_exit_check(me: u32, step: AcquireStep, still_alive: bool) -> AcquireStep {
    match step {
        AcquireStep::AwaitExit(q) => if still_alive {
            step
        } else {
            AcquireStep::WriteLock(me)
        },
        _ => step,
    }
}

pub open spec fn after_write(step: AcquireStep, ok: bool) -> AcquireStep {
    match step {
        AcquireStep::WriteLock(_) => if ok {
            AcquireStep::Acquired
        } else {
            AcquireStep::Failed(AcquireError::LockUnwritable)
        },
        _ => step,
    }
}

/// Only the caller's own id is ever written, and only another process,
/// never id 0, is ever probed or killed.
pub open spec fn step_wf(me: u32, step: AcquireStep) -> bool {
    match step {
        AcquireStep::WriteLock(p) => p == me,
        AcquireStep::ProbeHolder(q) => q != me && q != 0,
        AcquireStep::KillHolder(q) => q != me && q != 0,
        AcquireStep::AwaitExit(q) => q != me && q != 0,
        _ => true,
    }
}

pub struct GuardView {
    pub pid: u32,
    pub step: AcquireStep,
}

/// One acquisition of the lock by the process `pid`.
#[derive(Debug)]
pub struct SingletonGuard {
    pid: u32,
    step: AcquireStep,
}

impl View for SingletonGuard {
    type V = GuardView;

    closed spec fn view(&self) -> GuardView {
        GuardView { pid: self.pid, step: self.step }
    }
}

impl SingletonGuard {
    pub open spec fn wf(&self) -> bool {
        step_wf(self@.pid, self@.step)
    }

    pub fn new(pid: u32) -> (r: Self)
        ensures
            r@ == (GuardView { pid, step: AcquireStep::ReadLock }),
            r.wf(),
    {
        SingletonGuard { pid, step: AcquireStep::ReadLock }
    }

    pub fn step(&self) -> (r: AcquireStep)
        ensures
            r == self@.step,
    {
        self.step
    }

    /// The text of the lock record that this process writes: its id.
    pub fn lock_record(&self) -> (r: String)
        ensures
            r@ == decimal(self@.pid as nat),
            parse_u32(r@) == Some(self@.pid),
    {
        proof {
            lemma_parse_decimal(self.pid);
        }
        decimal_text(self.pid)
    }

    pub fn on_lock_read(&mut self, read: LockRead)
        requires
            old(self).wf(),
        ensures
            final(self).wf(),
            final(self)@.pid == old(self)@.pid,
            final(self)@.step == if old(self)@.step == AcquireStep::ReadLock {
                after_read(old(self)@.pid, read@)
            } else {
                old(self)@.step
            },
    {
        if !matches!(self.step, AcquireStep::ReadLock) {
            return;
        }
        self.step = match read {
            LockRead::Unreadable => AcquireStep::Failed(AcquireError::LockUnreadable),
            LockRead::Absent => AcquireStep::WriteLock(self.pid),
            LockRead::Text(t) => match parse_number(t.as_str()) {
                Some(q) => if q != self.pid && q != 0 {
                    AcquireStep::ProbeHolder(q)
                } else {
                    AcquireStep::WriteLock(self.pid)
                },
                None => AcquireStep::WriteLock(self.pid),
            },
        };
    }

    pub fn on_probe(&mut self, alive: bool)
        requires
            old(self).wf(),
        ensures
            final(self).wf(),
            final(self)@.pid == old(self)@.pid,
            final(self)@.step == after_probe(old(self)@.pid, old(self)@.step, alive),
    {
        if let AcquireStep::ProbeHolder(q) = self.step {
            self.step = if alive {
                AcquireStep::KillHolder(q)
            } else {
                AcquireStep::WriteLock(self.pid)
            };
        }
    }

    pub fn on_kill(&mut self, delivered: bool)
        requires
            old(self).wf(),
        ensures
            final(self).wf(),
            final(self)@.pid == old(self)@.pid,
            final(self)@.step == after_kill(old(self)@.pid, old(self)@.step, delivered),
    {
        if let AcquireStep::KillHolder(q) = self.step {
            self.step = if delivered {
                AcquireStep::AwaitExit(q)
            } else {
                AcquireStep::WriteLock(self.pid)
            };
        }
    }

    pub fn on_exit_check(&mut self, still_alive: bool)
        requires
            old(self).wf(),
        ensures
            final(self).wf(),
            final(self)@.pid == old(self)@.pid,
            final(self)@.step == after_exit_check(old(self)@.pid, old(self)@.step, still_alive),
    {
        if let AcquireStep::AwaitExit(_) = self.step {
            if !still_alive {
                self.step = AcquireStep::WriteLock(self.pid);
            }
        }
    }

    pub fn on_write(&mut self, ok: bool)
        requires
            old(self).wf(),
        ensures
            final(self).wf(),
            final(self)@.pid == old(self)@.pid,
            final(self)@.step == after_write(old(self)@.step, ok),
    {
        if let AcquireStep::WriteLock(_) = self.step {
            self.step = if ok {
                AcquireStep::Acquired
            } else {
                AcquireStep::Failed(AcquireError::LockUnwritable)
            };
        }
    }
}

/// A lock record that names a live process other than `me` leads, in one
/// acquisition, to that process being killed, awaited, and replaced in the
/// record by `me`, whose record reads back as `me`.
pub proof fn lemma_takeover(me: u32, record: Seq<char>, holder: u32)
    requires
        parse_u32(record) == Some(holder),
        holder != me,
        holder != 0,
    ensures
        after_read(me, LockReadView::Text(record)) == AcquireStep::ProbeHolder(holder),
        after_probe(me, AcquireStep::ProbeHolder(holder), true) == AcquireStep::KillHolder(holder),
        after_kill(me, AcquireStep::KillHolder(holder), true) == AcquireStep::AwaitExit(holder),
        after_exit_check(me, AcquireStep::AwaitExit(holder), false) == AcquireStep::WriteLock(me),
        after_write(AcquireStep::WriteLock(me), true) == AcquireStep::Acquired,
        parse_u32(decimal(me as nat)) == Some(me),
{
    lemma_parse_decimal(me);
}

/// The record written by the previous owner makes the next instance take over
/// from it.
pub proof fn lemma_record_names_owner(owner: u32, me: u32)
    requires
        owner != me,
        owner != 0,
    ensures
        after_read(me, LockReadView::Text(decimal(owner as nat))) == AcquireStep::ProbeHolder(owner),
{
    lemma_parse_decimal(owner);
}

} // verus!
