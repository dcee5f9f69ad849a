//! Verified core of a score-proving service for a timed defense minigame.
//!
//! A player submits a recorded action log together with a bot configuration
//! identifier; a deterministic simulation replays the round tick by tick and
//! derives the public outcome (threats cured, systems destroyed, data-leak
//! metric, score).  The outcome crosses the proof boundary only through a
//! fixed 64-byte journal encoding.  An asynchronous job pipeline drives the
//! expensive proving step and exposes job status.
//!
//! Everything that decides or computes lives here and is verified: the seeded
//! random generator, threat generation, the cure model, the tick simulator,
//! score calculation, the journal codec, request validation, and the job
//! state machine.  HTTP transport and the proving backend stay outside.

pub mod config;
pub mod cure;
pub mod hex;
pub mod jobs;
pub mod journal;
pub mod rng;
pub mod round;
pub mod score;
pub mod sim;
pub mod threats;
