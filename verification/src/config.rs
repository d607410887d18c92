//! Process-wide tunables for context-window assembly.

use vstd::prelude::*;

verus! {

/// Limits applied when assembling a prompt from a message and its context.
///
/// `context_length` bounds how many context entries may be consumed;
/// `message_limit_chars` bounds the total character length of the prompt
/// buffer. Both are fixed at construction; nothing in this library mutates
/// a configuration after it is built.
#[derive(Debug, Clone, Copy)]
pub struct RoadmapConfig {
    pub context_length: usize,
    pub message_limit_chars: usize,
}

impl Default for RoadmapConfig {
    /// The default limits: at most three context entries, at most 2048
    /// characters of prompt.
    fn default() -> (c: Self)
        ensures
            c.context_length == 3,
            c.message_limit_chars == 2048,
    {
        RoadmapConfig { context_length: 3, message_limit_chars: 2048 }
    }
}

} // verus!
