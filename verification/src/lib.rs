//! A constrained-alphabet pseudo-word generator: random strings that look
//! like words of a small constructed-language phonology.
//!
//! Three fixed syllable tables (`tables`) feed a syllable-count-driven state
//! machine (`synth::synthesize`) that draws from a pluggable random source
//! (`random`): either the thread's generator or a deterministic script,
//! which makes synthesis replayable and its contracts exact. The nasal coda
//! may be inserted between syllables with an exact ratio probability
//! (`probability`), and may or may not spend budget (`mode`).

pub mod mode;
pub mod probability;
pub mod random;
pub mod synth;
pub mod tables;
