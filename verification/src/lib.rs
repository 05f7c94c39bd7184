//! A one-shot transaction-simulation library: it decodes a base64/XDR
//! transaction envelope, validates an optional ledger snapshot, walks the
//! contract-invocation operations, and classifies execution failures into
//! human-readable categories.

pub mod classify;
pub mod decode;
pub mod engine;
pub mod model;
pub mod pipeline;
pub mod text;
