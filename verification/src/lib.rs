//! A tamper-detecting container for integer values.
//!
//! A [`ProtectedInteger`] stores a value three times over: once in plain
//! form, once as a freshly drawn random mask, and once as the value combined
//! with that mask by XOR. A direct overwrite of the plain slot alone (the
//! natural target of a memory editor) breaks the relation between the three
//! fields; reading the cell back detects this and recovers the last value
//! that was legitimately stored.
//!
//! The scheme is a masked redundancy check, not a MAC: an attacker who knows
//! the encoding and patches all three fields consistently defeats it. That is
//! a stated limitation of the design, traded for simplicity and speed.

use vstd::prelude::*;

pub mod element;

use element::Element;

verus! {

/// What a read of a [`ProtectedInteger`] found.
#[derive(Debug, Clone, Copy)]
pub enum State<T> {
    /// The plain value slot disagrees with the mask and verification fields;
    /// the carried value is the one recovered from those two, i.e. the last
    /// value that was legitimately stored.
    Tampered(T),
    /// The three fields agree; the carried value is the stored one.
    Untampered(T),
}

impl<T> State<T> {
    /// The value carried by either variant.
    pub open spec fn spec_value(self) -> T {
        match self {
            State::Tampered(v) => v,
            State::Untampered(v) => v,
        }
    }

    /// Whether the read detected a tamper.
    pub fn is_tampered(&self) -> (r: bool)
        ensures
            r == (self is Tampered),
    {
        match self {
            State::Tampered(_) => true,
            _ => false,
        }
    }

    /// Whether the read found the cell intact.
    pub fn is_untampered(&self) -> (r: bool)
        ensures
            r == (self is Untampered),
    {
        match self {
            State::Untampered(_) => true,
            _ => false,
        }
    }

    /// The carried value, regardless of whether a tamper was detected.
    pub fn to_value(self) -> (r: T)
        ensures
            r == self.spec_value(),
    {
        match self {
            State::Tampered(v) => v,
            State::Untampered(v) => v,
        }
    }
}

/// An integer held in a masked, redundantly encoded form, so that a direct
/// overwrite of the plain `value` slot is detectable and the last stored
/// value recoverable.
///
/// The fields are public on purpose: the attack this cell defends against is
/// an out-of-band write to its memory, and the tamper-detection laws below
/// are stated over cells whose fields were changed behind the API's back.
/// Going through [`ProtectedInteger::set`] is the only legitimate way to
/// update one.
pub struct ProtectedInteger<T> {
    /// The real value, stored in plain form.
    pub value: T,
    /// `value` XOR `magic`, as of the last legitimate write.
    pub verification: T,
    /// The random mask drawn at the last legitimate write.
    pub magic: T,
}

impl<T: Element> ProtectedInteger<T> {
    /// The three fields stand in the relation that every legitimate write
    /// establishes: `verification` is `value` masked with `magic`.
    pub open spec fn consistent(self) -> bool {
        self.verification == self.value.xor_spec(self.magic)
    }

    /// The value reconstructed from the verification field and the mask —
    /// on a consistent cell, the stored value itself.
    pub open spec fn recovered(self) -> T {
        self.verification.xor_spec(self.magic)
    }

    /// What a read of this cell returns: the stored value if it agrees with
    /// the reconstruction, otherwise a tamper report carrying the
    /// reconstructed value.
    pub open spec fn spec_get(self) -> State<T> {
        if self.recovered() == self.value {
            State::Untampered(self.value)
        } else {
            State::Tampered(self.recovered())
        }
    }

    /// What a consistency check of this cell returns.
    pub open spec fn spec_check(self) -> bool {
        self.value.xor_spec(self.magic) == self.verification
    }

    /// Creates a cell holding `value`, masked with a freshly drawn random
    /// mask. Always succeeds, and the new cell reads back as untampered.
    pub fn new(value: T) -> (r: ProtectedInteger<T>)
        ensures
            r.value == value,
            r.consistent(),
            r.spec_check(),
            r.spec_get() == State::Untampered(value),
    {
        let magic = T::sample();
        let verification = value.xor(magic);
        proof {
            T::lemma_xor_cancel(value, magic);
        }
        ProtectedInteger { value, verification, magic }
    }

    /// Reads the cell back, detecting tampering on the way. Returns
    /// `Untampered` with the stored value when the fields still agree, and
    /// `Tampered` with the reconstructed last-good value when they do not.
    /// Read-only: it never changes the cell, so repeated calls return the
    /// same result.
    pub fn get(&self) -> (r: State<T>)
        ensures
            r == self.spec_get(),
            self.recovered() == self.value ==> r == State::Untampered(self.value),
            self.recovered() != self.value ==> r == State::Tampered(self.recovered()),
    {
        let recovered = self.verification.xor(self.magic);
        if recovered.eq_element(self.value) {
            State::Untampered(self.value)
        } else {
            State::Tampered(recovered)
        }
    }

    /// Stores `value` under a freshly drawn mask, discarding the old mask
    /// entirely. This is the only legitimate way to update the cell; any
    /// earlier tamper is overwritten along with the old encoding, so a
    /// caller who wants to detect first must call `get` or `check` before
    /// writing.
    pub fn set(&mut self, value: T)
        ensures
            final(self).value == value,
            final(self).consistent(),
            final(self).spec_check(),
            final(self).spec_get() == State::Untampered(value),
    {
        let magic = T::sample();
        let verification = value.xor(magic);
        proof {
            T::lemma_xor_cancel(value, magic);
        }
        self.value = value;
        self.verification = verification;
        self.magic = magic;
    }

    /// Whether the cell is still consistent: true exactly when the stored
    /// value masked with the current mask equals the verification field.
    /// Read-only, like `get`, and agreeing with it: see
    /// [`lemma_check_agrees_with_get`].
    pub fn check(&self) -> (r: bool)
        ensures
            r == self.spec_check(),
    {
        self.value.xor(self.magic).eq_element(self.verification)
    }
}

/// A consistent cell — one as any `new` or `set` leaves it — reads back as
/// untampered, whatever mask the write happened to draw: `get` returns
/// `Untampered` with the stored value, and `check` returns true.
pub proof fn lemma_consistent_cell_reads_clean<T: Element>(c: ProtectedInteger<T>)
    requires
        c.consistent(),
    ensures
        c.spec_get() == State::Untampered(c.value),
        c.spec_check(),
{
    T::lemma_xor_cancel(c.value, c.magic);
}

/// Overwriting only the `value` slot of a consistent cell — leaving the mask
/// and the verification field as they were — is always detected: `check`
/// turns false, and `get` reports a tamper carrying the value the cell held
/// before, not the overwritten bytes.
pub proof fn lemma_value_tamper_detected<T: Element>(
    before: ProtectedInteger<T>,
    after: ProtectedInteger<T>,
)
    requires
        before.consistent(),
        after.magic == before.magic,
        after.verification == before.verification,
        after.value != before.value,
    ensures
        !after.spec_check(),
        after.spec_get() == State::Tampered(before.value),
{
    T::lemma_xor_cancel(before.value, before.magic);
    T::lemma_xor_cancel(after.value, after.magic);
}

/// `check` answers exactly the question `get` answers: it is true precisely
/// when `get` finds the cell untampered.
pub proof fn lemma_check_agrees_with_get<T: Element>(c: ProtectedInteger<T>)
    ensures
        c.spec_check() == (c.spec_get() is Untampered),
{
    T::lemma_xor_cancel(c.value, c.magic);
    T::lemma_xor_cancel(c.verification, c.magic);
}

/// Reads are idempotent. `get` and `check` take the cell by shared
/// reference, so they cannot change its fields, and their contracts pin each
/// result as a function of the fields alone: any two reads of a cell with no
/// write in between return the same thing.
pub proof fn lemma_reads_idempotent<T: Element>(
    c: ProtectedInteger<T>,
    r1: State<T>,
    r2: State<T>,
    b1: bool,
    b2: bool,
)
    requires
        r1 == c.spec_get(),
        r2 == c.spec_get(),
        b1 == c.spec_check(),
        b2 == c.spec_check(),
    ensures
        r1 == r2,
        b1 == b2,
{
}

/// Two writes of the same value that drew different masks leave different
/// verification fields: the pair (mask, verification) never repeats unless
/// the mask itself does.
pub proof fn lemma_distinct_masks_distinct_encodings<T: Element>(
    c1: ProtectedInteger<T>,
    c2: ProtectedInteger<T>,
)
    requires
        c1.consistent(),
        c2.consistent(),
        c1.value == c2.value,
        c1.magic != c2.magic,
    ensures
        c1.verification != c2.verification,
{
    T::lemma_xor_comm(c1.value, c1.magic);
    T::lemma_xor_comm(c2.value, c2.magic);
    T::lemma_xor_cancel(c1.magic, c1.value);
    T::lemma_xor_cancel(c2.magic, c2.value);
}

} // verus!
