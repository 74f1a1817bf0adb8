//! The domain types of the stream pipeline: validated text and numbers,
//! identifiers, and the events that travel through the stream.

pub mod validated;
pub mod ids;
pub mod severity;
pub mod events;
