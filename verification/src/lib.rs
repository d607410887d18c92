//! A conversational-intent classifier and roadmap generator built atop a
//! chat-completion service.
//!
//! The heart of the library is the context-window assembly algorithm: prior
//! conversation entries are folded into a single prompt buffer under a
//! character budget before being sent upstream. The two caller-facing
//! operations, intent classification and roadmap generation, interpret the
//! upstream reply as a typed result.

pub mod builder;
pub mod config;
pub mod message;
pub mod reply;
