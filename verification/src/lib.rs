//! Runtime core of a voice-driven desktop assistant: an audio playback
//! actor, a rolling screen-frame buffer, and a supervisor for two dependent
//! network services. The concurrency plumbing (threads, channels, sockets,
//! devices) lives outside this crate; here stand the data models, the
//! state transitions and the byte-level protocol pieces, each with its
//! contract.

pub mod audio;
pub mod backend;
pub mod commands;
pub mod health;
pub mod launch;
pub mod resolve;
pub mod screen;
