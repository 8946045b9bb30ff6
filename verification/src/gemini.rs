//! The protocol client: locations, the wire format, status lines, and the
//! course of one request.

pub mod client;
pub mod codec;
pub mod location;
pub mod status;

pub use client::{
    request, Action, CertificatePolicy, Event, Exchange, ResponseOutcome, TransportError,
};
pub use codec::CodecError;
pub use location::{resolve, ResolutionError, ResourceLocation};
pub use status::GeminiStatus;
