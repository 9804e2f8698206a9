//! The singleton rule: of the processes started on one machine, the one
//! that holds the named lock schedules; every other one only opens the
//! configuration front-end.
//!
//! The lock is taken once, without waiting, and held until the process
//! ends. Nothing in the library releases it.

use vstd::prelude::*;

verus! {

/// The name of the lock that all instances of the program contend for.
pub const LOCK_NAME: &'static str = "slowmovie";

/// The name of the lock, as text.
pub open spec fn lock_name() -> Seq<char> {
    LOCK_NAME@
}

/// How one attempt to take the lock, without waiting, ended.
#[derive(Clone, Debug, PartialEq, Eq)]
pub enum LockAttempt {
    /// The lock is now held by this process.
    Acquired,
    /// Another process holds the lock.
    WouldBlock,
    /// The lock could not be created or tried; the message says why.
    Failed(String),
}

/// A [`LockAttempt`] as plain data.
pub enum LockAttemptView {
    Acquired,
    WouldBlock,
    Failed(Seq<char>),
}

impl View for LockAttempt {
    type V = LockAttemptView;

    open spec fn view(&self) -> LockAttemptView {
        match *self {
            LockAttempt::Acquired => LockAttemptView::Acquired,
            LockAttempt::WouldBlock => LockAttemptView::WouldBlock,
            LockAttempt::Failed(m) => LockAttemptView::Failed(m@),
        }
    }
}

/// What a process is to do, decided by its attempt on the lock.
#[derive(Clone, Debug, PartialEq, Eq)]
pub enum Role {
    /// This process owns the scheduling for the machine.
    Primary,
    /// Another process owns it. This is expected and no failure.
    SecondaryBlocked,
    /// The attempt itself failed, which is fatal for this process.
    Error(String),
}

/// A [`Role`] as plain data.
pub enum RoleView {
    Primary,
    SecondaryBlocked,
    Error(Seq<char>),
}

impl View for Role {
    type V = RoleView;

    open spec fn view(&self) -> RoleView {
        match *self {
            Role::Primary => RoleView::Primary,
            Role::SecondaryBlocked => RoleView::SecondaryBlocked,
            Role::Error(m) => RoleView::Error(m@),
        }
    }
}

/// The role that an attempt on the lock gives.
pub open spec fn role_of(attempt: LockAttemptView) -> RoleView {
    match attempt {
        LockAttemptView::Acquired => RoleView::Primary,
        LockAttemptView::WouldBlock => RoleView::SecondaryBlocked,
        LockAttemptView::Failed(m) => RoleView::Error(m),
    }
}

/// Decides the role of this process from its attempt on the lock.
pub fn acquire(attempt: LockAttempt) -> (out: Role)
    ensures
        out@ == role_of(attempt@),
{
    match attempt {
        LockAttempt::Acquired => Role::Primary,
        LockAttempt::WouldBlock => Role::SecondaryBlocked,
        LockAttempt::Failed(m) => Role::Error(m),
    }
}

/// Of two attempts that the lock did not both grant, at most one makes a
/// primary. Where it granted one and told the other that it would block,
/// the one is the primary and the other a blocked secondary.
pub proof fn lemma_one_primary(first: LockAttemptView, second: LockAttemptView)
    requires
        !(first is Acquired && second is Acquired),
    ensures
        !(role_of(first) is Primary && role_of(second) is Primary),
        first is Acquired && second is WouldBlock ==> role_of(first) is Primary && role_of(
            second,
        ) is SecondaryBlocked,
        first is WouldBlock && second is Acquired ==> role_of(first) is SecondaryBlocked
            && role_of(second) is Primary,
{
}

} // verus!
