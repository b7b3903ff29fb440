//! Driver core for the BNO080 sensor hub, which speaks SHTP (the Sensor Hub
//! Transport Protocol) over a packet link.
//!
//! The driver performs no I/O of its own. Every operation that needs the link
//! or a delay is a step function: it is given an [`step::Event`] (what has just
//! happened) and answers with a [`step::Next`] (what has to be done, or what the
//! operation returns). The first event of an operation is `Event::Start`.

pub mod driver;
pub mod effects;
pub mod error;
pub mod laws;
pub mod model;
pub mod protocol;
pub mod step;
