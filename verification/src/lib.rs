//! A typed, bidirectional channel over a frame-oriented duplex carrier.
//!
//! A carrier moves opaque byte frames; a codec turns frames into values and
//! values into frames. [`transport::WsTransport`] joins the two: it decides,
//! for every report the carrier makes, what the typed channel surfaces, and
//! for every value sent, which frame the carrier is handed. Polling the
//! carrier is left to the caller, who passes each report in.

pub mod buffers;
pub mod codec;
pub mod error;
pub mod transport;
