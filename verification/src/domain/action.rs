//! Low-level actions for a future sequence description language.
use vstd::prelude::*;

verus! {

/// A low-level action that a sequence runner interprets. The runner calls the
/// step functions directly today; this type is the entry point kept for a
/// declarative description of the sequence.
#[derive(Debug, Clone)]
pub enum Action {
    /// Search the template every `poll_ms` for `timeout_ms`, click when found.
    ClickTemplate { template_name: String, timeout_ms: u64, poll_ms: u64 },
    /// Wait until the template is gone (debounce).
    WaitForTemplateGone { template_name: String, timeout_ms: u64, poll_ms: u64 },
    /// Positive check inside an ROI; a miss is handled by `on_miss`.
    AssertTemplate { template_name: String, timeout_ms: u64, on_miss: GuardAction },
    Sleep { ms: u64 },
    /// A timeout counts as a normal skip (the close step).
    OptionalClickTemplate { template_name: String, timeout_ms: u64, poll_ms: u64 },
}

/// What a failed assertion does.
#[derive(Debug, Clone, Copy, PartialEq, Eq, Structural)]
pub enum GuardAction {
    /// Stop at once with the guard error; no click is ever issued.
    Abort,
}

} // verus!
