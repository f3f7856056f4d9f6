//! The request-processing core of a gateway that forwards received SMS
//! notifications as email: timestamp decoding, recipient resolution, message
//! composition and the per-request pipeline, each with a machine-checked
//! contract.

pub mod address;
pub mod message;
pub mod pipeline;
pub mod recipients;
pub mod text;
pub mod timestamp;
