//! A streaming Unicode-normalization filter for terminal event streams.
//!
//! A terminal protocol interpreter produces a stream of events: literal
//! characters and control operations (cursor motion, colors, titles, ...).
//! Text that arrives one code point at a time - combining diacritics,
//! decomposed Hangul - renders incorrectly if each code point reaches the
//! terminal state on its own. The [`filter::NormalizationHandler`] sits
//! between producer and target: it buffers consecutive characters, applies
//! Unicode canonical composition (NFC) to a buffered run exactly when the run
//! contains a combining mark or Hangul Jamo, and guarantees that buffered
//! text is delivered before any control operation, preserving event order.

pub mod events;
pub mod filter;
pub mod forward;
pub mod sink;
