//! Core of a QR code generation service.
//!
//! The service turns a text payload into a PNG-encoded QR code image:
//! query parameters are validated into a [`query::QrQuery`], the payload is
//! encoded into a square module grid ([`symbol::QrSymbol`]), the grid is
//! upscaled into a grayscale raster ([`raster::RasterImage`]), and the raster
//! is serialized as PNG bytes. The HTTP-facing outcome of each request is a
//! [`http::Reply`], whose value is pinned down by the specification
//! [`http::qr_reply_model`].

pub mod error;
pub mod http;
pub mod query;
pub mod raster;
pub mod symbol;

pub use error::ServiceError;
pub use http::{qr, root, Reply, ReplyModel};
pub use query::{default_size, validate, QrQuery};
