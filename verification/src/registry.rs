//! The task slot: which token, if any, a request for cancellation reaches.
//!
//! The slot holds at most one token, that of the task registered last. It is
//! meant to live behind a lock; a lock that was found poisoned is recorded in
//! the slot, and from then on the slot refuses to be read or written.

use crate::error::{ErrorKind, ErrorView, UpscaleError};
use crate::token::{
    flag_is_set, lemma_token_identity, with_flag_set, CancelFlags, CancellationToken,
};
use vstd::prelude::*;

verus! {

/// The mathematical value of a [`ProcessingState`], with the operations of
/// the slot as functions.
pub struct SlotView {
    /// The registered token, if a task is active.
    pub token: Option<CancellationToken>,
    /// Whether the lock around the slot was found poisoned.
    pub poisoned: bool,
}

impl SlotView {
    /// The slot after `token` was registered.
    pub open spec fn register(self, token: CancellationToken) -> SlotView {
        if self.poisoned {
            self
        } else {
            SlotView { token: Some(token), ..self }
        }
    }

    /// The slot after it was cleared.
    pub open spec fn clear(self) -> SlotView {
        if self.poisoned {
            self
        } else {
            SlotView { token: None, ..self }
        }
    }

    /// The token that a signal reaches, if any.
    pub open spec fn reachable(self) -> Option<CancellationToken> {
        if self.poisoned {
            None
        } else {
            self.token
        }
    }

    /// The flags after a signal was sent through the slot.
    pub open spec fn signal(self, flags: Seq<bool>) -> Seq<bool> {
        match self.reachable() {
            Some(token) => with_flag_set(flags, token.id()),
            None => flags,
        }
    }

    /// Why a signal reaches no token, if it reaches none.
    pub open spec fn refusal(self) -> Option<ErrorKind> {
        if self.poisoned {
            Some(ErrorKind::LockPoisoned)
        } else if self.token is None {
            Some(ErrorKind::NoActiveTask)
        } else {
            None
        }
    }
}

/// An error of the given kind without detail.
pub open spec fn bare(kind: ErrorKind) -> ErrorView {
    ErrorView { kind, detail: Seq::empty() }
}

/// The task slot of the process.
pub struct ProcessingState {
    token: Option<CancellationToken>,
    poisoned: bool,
}

impl View for ProcessingState {
    type V = SlotView;

    closed spec fn view(&self) -> SlotView {
        SlotView { token: self.token, poisoned: self.poisoned }
    }
}

impl Default for ProcessingState {
    /// An empty slot behind a sound lock.
    fn default() -> (state: ProcessingState)
        ensures
            state@ == (SlotView { token: None, poisoned: false }),
    {
        ProcessingState { token: None, poisoned: false }
    }
}

impl ProcessingState {
    /// The registered token, if there is one.
    pub fn current(&self) -> (token: Option<CancellationToken>)
        ensures
            token == self@.token,
    {
        self.token
    }

    /// Whether the lock around the slot was found poisoned.
    pub fn is_poisoned(&self) -> (poisoned: bool)
        ensures
            poisoned == self@.poisoned,
    {
        self.poisoned
    }

    /// Records that the lock around the slot was found poisoned: a holder
    /// failed while it held the lock.
    pub fn poison(&mut self)
        ensures
            final(self)@ == (SlotView { poisoned: true, ..old(self)@ }),
    {
        self.poisoned = true;
    }

    /// Puts `token` into the slot, in place of whatever the slot held. Fails,
    /// and changes nothing, if and only if the lock is poisoned.
    pub fn register(&mut self, token: CancellationToken) -> (result: Result<(), UpscaleError>)
        ensures
            final(self)@ == old(self)@.register(token),
            match result {
                Ok(_) => !old(self)@.poisoned,
                Err(error) => old(self)@.poisoned && error@ == bare(ErrorKind::LockPoisoned),
            },
    {
        if self.poisoned {
            Err(UpscaleError::bare(ErrorKind::LockPoisoned))
        } else {
            self.token = Some(token);
            Ok(())
        }
    }

    /// Empties the slot. Fails, and changes nothing, if and only if the lock
    /// is poisoned.
    pub fn clear(&mut self) -> (result: Result<(), UpscaleError>)
        ensures
            final(self)@ == old(self)@.clear(),
            match result {
                Ok(_) => !old(self)@.poisoned,
                Err(error) => old(self)@.poisoned && error@ == bare(ErrorKind::LockPoisoned),
            },
    {
        if self.poisoned {
            Err(UpscaleError::bare(ErrorKind::LockPoisoned))
        } else {
            self.token = None;
            Ok(())
        }
    }

    /// Sets the flag of the registered token and reports success. With an
    /// empty slot it reports that no task is active, with a poisoned lock
    /// that the lock is poisoned, and touches no flag. The slot keeps what it
    /// holds.
    pub fn signal_if_present(&self, flags: &mut CancelFlags) -> (result: Result<(), UpscaleError>)
        ensures
            final(flags)@ == self@.signal(old(flags)@),
            match result {
                Ok(_) => self@.refusal() is None,
                Err(error) => self@.refusal() matches Some(kind) && error@ == bare(kind),
            },
    {
        if self.poisoned {
            return Err(UpscaleError::bare(ErrorKind::LockPoisoned));
        }
        match self.token {
            Some(token) => {
                token.cancel(flags);
                Ok(())
            },
            None => Err(UpscaleError::bare(ErrorKind::NoActiveTask)),
        }
    }
}

/// A signal through a populated slot sets the flag of the registered token
/// and of no other token, and reports success. A second signal, sent before
/// another token is registered, changes nothing more.
pub proof fn lemma_signal_reaches_the_registered_token(
    slot: SlotView,
    flags: Seq<bool>,
    token: CancellationToken,
    other: CancellationToken,
)
    requires
        !slot.poisoned,
        slot.token == Some(token),
    ensures
        slot.refusal() is None,
        flag_is_set(slot.signal(flags), token.id()),
        other != token ==> flag_is_set(slot.signal(flags), other.id()) == flag_is_set(
            flags,
            other.id(),
        ),
        slot.signal(slot.signal(flags)) == slot.signal(flags),
{
    if other.id() == token.id() {
        lemma_token_identity(other, token);
    }
    assert(slot.signal(slot.signal(flags)) =~= slot.signal(flags));
}

/// A signal through an empty slot reports that no task is active and sets no
/// flag.
pub proof fn lemma_signal_through_an_empty_slot(slot: SlotView, flags: Seq<bool>)
    requires
        !slot.poisoned,
        slot.token is None,
    ensures
        slot.refusal() == Some(ErrorKind::NoActiveTask),
        slot.signal(flags) == flags,
{
}

/// A poisoned lock is reported as what it is, never as an empty slot: every
/// operation on the slot is refused with a message of its own, and neither
/// the slot nor any flag changes.
pub proof fn lemma_poisoned_lock_is_told_apart(
    slot: SlotView,
    flags: Seq<bool>,
    token: CancellationToken,
)
    requires
        slot.poisoned,
    ensures
        slot.refusal() == Some(ErrorKind::LockPoisoned),
        ErrorKind::LockPoisoned.prefix() != ErrorKind::NoActiveTask.prefix(),
        slot.signal(flags) == flags,
        slot.register(token) == slot,
        slot.clear() == slot,
{
    reveal_strlit("lock poisoned");
    reveal_strlit("no active task");
    assert(ErrorKind::LockPoisoned.prefix().len() != ErrorKind::NoActiveTask.prefix().len());
}

/// The slot does not queue. Where task A registers its fresh token and task
/// B registers its own before A has finished, a signal reaches the token of
/// B alone; and when A then finishes and clears the slot, the slot is empty,
/// so that B, which is still running, is out of reach of any later signal.
pub proof fn lemma_second_registration_takes_the_slot_over(
    slot: SlotView,
    flags: Seq<bool>,
    a: CancellationToken,
    b: CancellationToken,
)
    requires
        !slot.poisoned,
        a.id() == flags.len(),
        b.id() == flags.push(false).len(),
    ensures
        ({
            let issued = flags.push(false).push(false);
            let taken_over = slot.register(a).register(b);
            let signalled = taken_over.signal(issued);
            let cleared = taken_over.clear();
            &&& taken_over.reachable() == Some(b)
            &&& flag_is_set(signalled, b.id())
            &&& !flag_is_set(signalled, a.id())
            &&& cleared.token is None
            &&& cleared.refusal() == Some(ErrorKind::NoActiveTask)
            &&& cleared.signal(signalled) == signalled
        }),
{
}

} // verus!
