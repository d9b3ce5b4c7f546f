//! The decision core of an attended point-of-sale terminal: the
//! scanner decode state, the line and confirmation prompts, the login
//! controller with its scan preemption, the authenticated menu with
//! its management mode, the registration and deposit sub-flows, the
//! money grammar, and the classification of every backend answer. All
//! of it is pure: the surrounding process reads devices and the
//! network, feeds what arrives in here, and performs the effects these
//! machines hand back.

pub mod controller;
pub mod events;
pub mod flow;
pub mod menu;
pub mod money;
pub mod prompt;
pub mod properties;
pub mod registration;
pub mod rv_api;
pub mod scanner;
pub mod session;
pub mod stock;
pub mod text;

use vstd::prelude::*;

verus! {

/// Outcome of one bounded wait on the input bus: either the awaited value
/// arrived in time, or the wait expired.
pub enum TimeoutResult<T> {
    RESULT(T),
    TIMEOUT,
}

} // verus!
