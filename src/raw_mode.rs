//! The raw-mode state machine: activation reads the terminal's mode and
//! either finds raw mode already active, writing and keeping nothing, or
//! writes the raw variant and keeps the mode read, which release writes back.
use vstd::prelude::*;

verus! {

/// What activating raw mode does to a terminal, given the mode read from it.
#[derive(Debug)]
pub enum Activation<M> {
    /// Raw mode was already active: nothing is written now or on release.
    AlreadyRaw,
    /// `raw` is written now, and `previous` is written back on release.
    Apply { raw: M, previous: M },
}

pub open spec fn activation_spec<M>(current: M, already_raw: bool, raw: M) -> Activation<M> {
    if already_raw {
        Activation::AlreadyRaw
    } else {
        Activation::Apply { raw, previous: current }
    }
}

/// The activation for a terminal whose mode is `current`: `already_raw` says
/// whether `current` is raw, and `raw` is the raw variant of `current`.
pub fn plan_activation<M>(current: M, already_raw: bool, raw: M) -> (r: Activation<M>)
    ensures
        r == activation_spec(current, already_raw, raw),
{
    if already_raw {
        Activation::AlreadyRaw
    } else {
        Activation::Apply { raw, previous: current }
    }
}

/// The terminal's mode once an activation has taken effect.
pub open spec fn mode_after_activation<M>(mode: M, a: Activation<M>) -> M {
    match a {
        Activation::AlreadyRaw => mode,
        Activation::Apply { raw, .. } => raw,
    }
}

/// The terminal's mode once the guard of an activation is released.
pub open spec fn mode_after_release<M>(mode: M, a: Activation<M>) -> M {
    match a {
        Activation::AlreadyRaw => mode,
        Activation::Apply { previous, .. } => previous,
    }
}

impl<M: Copy> Activation<M> {
    /// The mode to write when raw mode is entered, if any.
    pub fn mode_to_apply(&self) -> (r: Option<M>)
        ensures
            r == match *self {
                Activation::AlreadyRaw => None,
                Activation::Apply { raw, .. } => Some(raw),
            },
    {
        match self {
            Activation::AlreadyRaw => None,
            Activation::Apply { raw, .. } => Some(*raw),
        }
    }

    /// The mode to write back when the guard is released, if any: present
    /// only when this activation changed the mode.
    pub fn mode_to_restore(&self) -> (r: Option<M>)
        ensures
            r == match *self {
                Activation::AlreadyRaw => None,
                Activation::Apply { previous, .. } => Some(previous),
            },
    {
        match self {
            Activation::AlreadyRaw => None,
            Activation::Apply { previous, .. } => Some(*previous),
        }
    }
}

/// The activation on a terminal whose modes are told raw by `is_raw` and made
/// raw by `to_raw`.
pub open spec fn activation_of<M>(mode: M, is_raw: spec_fn(M) -> bool, to_raw: spec_fn(M) -> M) -> Activation<M> {
    activation_spec(mode, is_raw(mode), to_raw(mode))
}

/// On a terminal already in raw mode, activation changes nothing, and
/// releasing its guard changes nothing either.
pub proof fn lemma_activation_when_raw_is_noop<M>(
    mode: M,
    is_raw: spec_fn(M) -> bool,
    to_raw: spec_fn(M) -> M,
)
    requires
        is_raw(mode),
    ensures
        activation_of(mode, is_raw, to_raw) is AlreadyRaw,
        mode_after_activation(mode, activation_of(mode, is_raw, to_raw)) == mode,
        mode_after_release(mode, activation_of(mode, is_raw, to_raw)) == mode,
{
}

/// Two nested activations, where the raw variant of every mode is raw: the
/// inner one finds raw mode active and changes nothing, its release leaves
/// the terminal raw, and the outer release restores the mode it started from.
pub proof fn lemma_nested_activations<M>(
    mode: M,
    is_raw: spec_fn(M) -> bool,
    to_raw: spec_fn(M) -> M,
)
    requires
        forall|m: M| #[trigger] is_raw(to_raw(m)),
    ensures
        ({
            let outer = activation_of(mode, is_raw, to_raw);
            let raw = mode_after_activation(mode, outer);
            let inner = activation_of(raw, is_raw, to_raw);
            &&& is_raw(raw)
            &&& inner is AlreadyRaw
            &&& mode_after_activation(raw, inner) == raw
            &&& is_raw(mode_after_release(raw, inner))
            &&& mode_after_release(mode_after_release(raw, inner), outer) == mode
        }),
{
    assert(is_raw(to_raw(mode)));
}

} // verus!
