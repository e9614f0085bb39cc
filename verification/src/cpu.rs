//! Trusted wrappers around the processor's interrupt-mask and halt
//! primitives, the hardware operations the idle-sleep protocol depends on.
//!
//! None of these has an effect Verus can observe; their value lies in the
//! order the scheduler calls them in. `enable_and_halt` is the atomic
//! "re-enable interrupts and halt" step that the hardware guarantees not to
//! miss an interrupt arriving between its two halves.

use vstd::prelude::*;

verus! {

/// Relies on `x86_64::instructions::interrupts::disable`: masks maskable
/// hardware interrupts (the `cli` instruction).
#[verifier::external_body]
pub(crate) fn interrupts_disable() {
    x86_64::instructions::interrupts::disable()
}

/// Relies on `x86_64::instructions::interrupts::enable`: unmasks maskable
/// hardware interrupts (the `sti` instruction).
#[verifier::external_body]
pub(crate) fn interrupts_enable() {
    x86_64::instructions::interrupts::enable()
}

/// Relies on `x86_64::instructions::interrupts::enable_and_hlt`: unmasks
/// interrupts and halts in the `sti` shadow, so an interrupt arriving
/// between the two steps still wakes the processor.
#[verifier::external_body]
pub(crate) fn enable_and_halt() {
    x86_64::instructions::interrupts::enable_and_hlt()
}

} // verus!
