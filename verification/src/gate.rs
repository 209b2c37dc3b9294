//! The write gate: whether readings are persisted, and the secret that
//! guards that switch.

use vstd::prelude::*;

verus! {

/// What became of an attempt to change the write gate.
#[derive(Clone, Copy, Debug, PartialEq, Eq, Structural)]
pub enum SetOutcome {
    /// The secret matched; the write gate now has the requested value.
    Applied,
    /// The secret did not match; the write gate is as it was.
    Rejected,
}

/// The write gate as contracts see it.
pub struct GateState {
    pub enabled: bool,
    pub secret: Seq<char>,
}

/// Whether an attempt to change `gate` with `supplied` as the secret goes
/// through: it does exactly when `supplied` is the configured secret.
pub open spec fn set_outcome(gate: GateState, supplied: Seq<char>) -> SetOutcome {
    if supplied == gate.secret {
        SetOutcome::Applied
    } else {
        SetOutcome::Rejected
    }
}

/// The write gate after such an attempt.
pub open spec fn after_set(gate: GateState, new_value: bool, supplied: Seq<char>) -> GateState {
    if supplied == gate.secret {
        GateState { enabled: new_value, secret: gate.secret }
    } else {
        gate
    }
}

/// A single flag, changed only by a caller who knows the configured secret.
pub struct WriteGate {
    enabled: bool,
    secret: String,
}

impl View for WriteGate {
    type V = GateState;

    closed spec fn view(&self) -> GateState {
        GateState { enabled: self.enabled, secret: self.secret@ }
    }
}

impl WriteGate {
    /// A gate guarded by `secret`. Writes start out enabled.
    pub fn new(secret: String) -> (gate: WriteGate)
        ensures
            gate@ == (GateState { enabled: true, secret: secret@ }),
    {
        WriteGate { enabled: true, secret }
    }

    /// Whether writes are enabled.
    pub fn read(&self) -> (enabled: bool)
        ensures
            enabled == self@.enabled,
    {
        self.enabled
    }

    /// Sets the write gate to `new_value` if `supplied_secret` is exactly the
    /// configured secret, and leaves it untouched otherwise.
    pub fn set(&mut self, new_value: bool, supplied_secret: &String) -> (outcome: SetOutcome)
        ensures
            outcome == set_outcome(old(self)@, supplied_secret@),
            final(self)@ == after_set(old(self)@, new_value, supplied_secret@),
    {
        if *supplied_secret == self.secret {
            self.enabled = new_value;
            SetOutcome::Applied
        } else {
            SetOutcome::Rejected
        }
    }
}

/// An attempt to change the write gate goes through if and only if the
/// supplied secret is exactly the configured one. If it goes through, the
/// write gate reads the requested value afterwards; if it does not, the
/// write gate is left as it was. The secret itself never changes.
pub proof fn lemma_set_needs_the_secret(gate: GateState, new_value: bool, supplied: Seq<char>)
    ensures
        set_outcome(gate, supplied) == SetOutcome::Applied <==> supplied == gate.secret,
        set_outcome(gate, supplied) == SetOutcome::Applied ==> after_set(
            gate,
            new_value,
            supplied,
        ).enabled == new_value,
        set_outcome(gate, supplied) == SetOutcome::Rejected ==> after_set(gate, new_value, supplied)
            == gate,
        after_set(gate, new_value, supplied).secret == gate.secret,
{
}

} // verus!
