//! WELL1024a pseudorandom number generator.
//!
//! A deterministic linear-recurrence generator over a 1024-bit state held as
//! 32 unsigned 32-bit words in a circular buffer. The generator is not
//! cryptographically secure; it is meant for fast, well-equidistributed
//! simulation-grade randomness.
//!
//! A generator instance is owned and mutated by a single caller at a time;
//! share one across threads only behind external synchronization, or give
//! each worker its own instance.

mod entropy;
mod model;
mod well1024a;

pub use well1024a::lemma_replay;
pub use well1024a::InvalidStateLength;
pub use well1024a::State;
pub use well1024a::Well1024aRng;

pub use model::advance;
pub use model::mix_left;
pub use model::mix_right;
pub use model::output_at;
pub use model::seed_word;
pub use model::step_output;
pub use model::step_state;
pub use model::zero_state;
pub use model::lemma_zero_fixed_point;
