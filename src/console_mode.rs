//! The console mode bits of a Windows input buffer: raw mode clears
//! `ENABLE_ECHO_INPUT` and `ENABLE_LINE_INPUT` and keeps every other bit.
use crate::raw_mode::{
    activation_of, activation_spec, lemma_activation_when_raw_is_noop, lemma_nested_activations,
    mode_after_activation, mode_after_release, plan_activation, Activation,
};
use vstd::prelude::*;

verus! {

/// Relies on `windows_sys`'s `ENABLE_ECHO_INPUT`, which is `4`.
#[verifier::external_body]
fn echo_input_flag() -> (r: u32)
    ensures
        r == 4,
{
    windows_sys::Win32::System::Console::ENABLE_ECHO_INPUT
}

/// Relies on `windows_sys`'s `ENABLE_LINE_INPUT`, which is `2`.
#[verifier::external_body]
fn line_input_flag() -> (r: u32)
    ensures
        r == 2,
{
    windows_sys::Win32::System::Console::ENABLE_LINE_INPUT
}

/// The bits that raw mode clears: `ENABLE_ECHO_INPUT | ENABLE_LINE_INPUT`.
pub open spec fn raw_disabled_bits() -> u32 {
    6
}

pub open spec fn is_raw_console_mode(mode: u32) -> bool {
    mode & raw_disabled_bits() == 0
}

pub open spec fn raw_console_mode(mode: u32) -> u32 {
    mode & !raw_disabled_bits()
}

fn disabled_bits() -> (r: u32)
    ensures
        r == raw_disabled_bits(),
{
    let echo = echo_input_flag();
    let line = line_input_flag();
    assert(4u32 | 2u32 == 6u32) by (bit_vector);
    echo | line
}

/// Whether the console mode has echo and line input both off.
pub fn is_raw_mode_enabled(mode: u32) -> (r: bool)
    ensures
        r == is_raw_console_mode(mode),
{
    mode & disabled_bits() == 0
}

/// The console mode with echo and line input off and every other bit kept.
pub fn enable_raw_mode(mode: u32) -> (r: u32)
    ensures
        r == raw_console_mode(mode),
        is_raw_console_mode(r),
{
    proof {
        lemma_raw_console_mode_is_raw(mode);
    }
    mode & !disabled_bits()
}

/// The raw variant of any console mode is raw.
pub proof fn lemma_raw_console_mode_is_raw(mode: u32)
    ensures
        is_raw_console_mode(raw_console_mode(mode)),
{
    assert((mode & !6u32) & 6u32 == 0) by (bit_vector);
}

/// The activation of raw mode on a console input buffer whose mode is `mode`.
pub fn plan_console_activation(mode: u32) -> (r: Activation<u32>)
    ensures
        r == activation_spec(mode, is_raw_console_mode(mode), raw_console_mode(mode)),
{
    let already_raw = is_raw_mode_enabled(mode);
    let raw = enable_raw_mode(mode);
    plan_activation(mode, already_raw, raw)
}

/// On a console input buffer already in raw mode, activation writes nothing
/// and releasing its guard leaves the mode as it was.
pub proof fn lemma_console_activation_when_raw_is_noop(mode: u32)
    requires
        is_raw_console_mode(mode),
    ensures
        activation_spec(mode, is_raw_console_mode(mode), raw_console_mode(mode)) is AlreadyRaw,
        mode_after_release(
            mode,
            activation_spec(mode, is_raw_console_mode(mode), raw_console_mode(mode)),
        ) == mode,
{
    let is_raw = |m: u32| is_raw_console_mode(m);
    let to_raw = |m: u32| raw_console_mode(m);
    lemma_activation_when_raw_is_noop(mode, is_raw, to_raw);
    assert(activation_of(mode, is_raw, to_raw) == activation_spec(
        mode,
        is_raw_console_mode(mode),
        raw_console_mode(mode),
    ));
}

/// Nested activations on a console input buffer: the inner one writes
/// nothing, its release leaves raw mode on, and the outer release writes back
/// the mode it started from.
pub proof fn lemma_console_nested_activations(mode: u32)
    ensures
        ({
            let outer = activation_spec(mode, is_raw_console_mode(mode), raw_console_mode(mode));
            let raw = mode_after_activation(mode, outer);
            let inner = activation_spec(raw, is_raw_console_mode(raw), raw_console_mode(raw));
            &&& is_raw_console_mode(raw)
            &&& inner is AlreadyRaw
            &&& mode_after_activation(raw, inner) == raw
            &&& mode_after_release(mode_after_release(raw, inner), outer) == mode
        }),
{
    let is_raw = |m: u32| is_raw_console_mode(m);
    let to_raw = |m: u32| raw_console_mode(m);
    assert forall|m: u32| #[trigger] is_raw(to_raw(m)) by {
        lemma_raw_console_mode_is_raw(m);
    }
    lemma_nested_activations(mode, is_raw, to_raw);
}

} // verus!
