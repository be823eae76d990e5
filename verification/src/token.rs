//! Cancellation tokens and the flags they share.
//!
//! A token is a small copyable handle. The flag that it stands for lives in a
//! [`CancelFlags`] table, so every copy of a token observes the same flag:
//! the table is the memory that the holders of a token share.

use vstd::prelude::*;

verus! {

/// The flags after the flag with index `id` was set: flags below `id` that the
/// table did not hold yet come into being unset.
pub open spec fn with_flag_set(flags: Seq<bool>, id: nat) -> Seq<bool> {
    Seq::new(
        if id < flags.len() { flags.len() } else { id + 1 },
        |i: int| i == id || (0 <= i < flags.len() && flags[i]),
    )
}

/// Whether the flag with index `id` is set. A flag that the table does not
/// hold yet is unset.
pub open spec fn flag_is_set(flags: Seq<bool>, id: nat) -> bool {
    id < flags.len() && flags[id as int]
}

/// The table of cancellation flags, one per token. Its view is the sequence of
/// the flags, indexed by token id.
pub struct CancelFlags {
    flags: Vec<bool>,
}

impl View for CancelFlags {
    type V = Seq<bool>;

    closed spec fn view(&self) -> Seq<bool> {
        self.flags@
    }
}

/// A handle on one cancellation flag. Cancellation is one-shot: a flag goes
/// from unset to set and never back.
#[derive(Clone, Copy, Debug, PartialEq, Eq, Structural)]
pub struct CancellationToken {
    id: usize,
}

impl CancelFlags {
    /// Whether `token` was constructed on this table (or signalled on it).
    pub open spec fn issued(&self, token: CancellationToken) -> bool {
        token.id() < self@.len()
    }

    /// Whether the flag of `token` is set.
    pub open spec fn is_set(&self, token: CancellationToken) -> bool {
        flag_is_set(self@, token.id())
    }

    /// A table that holds no flag yet.
    pub fn new() -> (flags: CancelFlags)
        ensures
            flags@ == Seq::<bool>::empty(),
    {
        CancelFlags { flags: Vec::new() }
    }

    /// The number of flags in the table.
    pub fn len(&self) -> (n: usize)
        ensures
            n == self@.len(),
    {
        self.flags.len()
    }
}

impl CancellationToken {
    /// The index of the token's flag.
    pub closed spec fn id(&self) -> nat {
        self.id as nat
    }

    /// The index of the token's flag, as a key for a driver's own records.
    pub fn key(&self) -> (k: usize)
        ensures
            k == self.id(),
    {
        self.id
    }

    /// Constructs a token whose flag is unset. The token differs from every
    /// token issued on `flags` before.
    pub fn new(flags: &mut CancelFlags) -> (token: CancellationToken)
        ensures
            token.id() == old(flags)@.len(),
            final(flags)@ == old(flags)@.push(false),
            !old(flags).issued(token),
            final(flags).issued(token),
            !final(flags).is_set(token),
    {
        let id: usize = flags.flags.len();
        flags.flags.push(false);
        CancellationToken { id }
    }

    /// Sets the token's flag. Setting a flag that is set already changes
    /// nothing, and no other flag is touched.
    pub fn cancel(&self, flags: &mut CancelFlags)
        ensures
            final(flags)@ == with_flag_set(old(flags)@, self.id()),
            final(flags).is_set(*self),
    {
        while flags.flags.len() <= self.id
            invariant
                flags@.len() >= old(flags)@.len(),
                flags@.len() <= old(flags)@.len() || flags@.len() <= self.id + 1,
                forall|i: int| 0 <= i < old(flags)@.len() ==> flags@[i] == old(flags)@[i],
                forall|i: int| old(flags)@.len() <= i < flags@.len() ==> !flags@[i],
            decreases self.id + 1 - flags.flags.len(),
        {
            flags.flags.push(false);
        }
        flags.flags.set(self.id, true);
        assert(flags@ =~= with_flag_set(old(flags)@, self.id()));
    }

    /// Reads the token's flag. The read changes nothing.
    pub fn is_cancelled(&self, flags: &CancelFlags) -> (cancelled: bool)
        ensures
            cancelled == flags.is_set(*self),
    {
        self.id < flags.flags.len() && flags.flags[self.id]
    }
}

/// Two tokens with the same id are the same token.
pub proof fn lemma_token_identity(a: CancellationToken, b: CancellationToken)
    requires
        a.id() == b.id(),
    ensures
        a == b,
{
}

/// Cancellation is one-shot: setting a flag sets it, and setting it again
/// changes nothing.
pub proof fn lemma_cancel_is_idempotent(flags: Seq<bool>, id: nat)
    ensures
        flag_is_set(with_flag_set(flags, id), id),
        with_flag_set(with_flag_set(flags, id), id) == with_flag_set(flags, id),
{
    assert(with_flag_set(with_flag_set(flags, id), id) =~= with_flag_set(flags, id));
}

/// Cancellation never resets a flag and touches no flag but its own.
pub proof fn lemma_cancel_touches_one_flag(flags: Seq<bool>, id: nat, other: nat)
    ensures
        flag_is_set(flags, other) ==> flag_is_set(with_flag_set(flags, id), other),
        other != id ==> flag_is_set(with_flag_set(flags, id), other) == flag_is_set(flags, other),
{
}

} // verus!
