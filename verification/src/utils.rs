//! Presentation helpers kept free of any terminal handling.

pub mod progress;
