//! Worker side of a two-process image exchange over one flat shared byte
//! region. The region holds, in order: a one-byte handshake flag, one byte
//! each for the row and column counts, the pixel rows (three bytes per
//! pixel), and one result triple per row. The worker polls the flag, and
//! when input is ready it computes the dominant color of every pixel row
//! and deposits the results after the pixel data.
//!
//! Everything that decides or computes lives here and is verified: the
//! byte layout, the handshake protocol, the per-row reducer, the full
//! processing cycle over an owned copy of the region, and the decision
//! tables for region setup and teardown. The process that maps the real
//! shared-memory object drives these functions from outside.

pub mod color;
pub mod errors;
pub mod flag;
pub mod layout;
pub mod lifecycle;
pub mod region;
