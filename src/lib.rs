//! Streaming building blocks of a phase-vocoder pitch shifter: frame-size
//! validation, the sliding sample window of the analyser, the overlap-add
//! buffer of the synthesiser, the frame queue and capture decisions of the
//! pipeline, note naming, and a strided view used by a radix-2 transform.
pub mod config;
pub mod notes;
pub mod pipeline;
pub mod splat;
pub mod window;
