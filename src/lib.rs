//! Text encodings of a decoded RGB raster (binary digits and hexadecimal),
//! and the upload request logic that produces them from a base64 image payload.

pub mod raster;
pub mod encoding;
pub mod models;
pub mod decoders;
pub mod upload;
