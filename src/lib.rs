//! Decoding and routing of MIDI byte frames.
//!
//! `event` holds the typed events and the wire format they are read from,
//! `decode` turns frames into events, `report` renders events as text,
//! `forward` relays frames verbatim, and `setup` turns operator input into
//! configuration.

pub mod event;
pub mod decode;
pub mod report;
pub mod forward;
pub mod setup;
