//! Gateway core for an image-editing service: provider-name resolution with a
//! fallback policy, credential overlay, a sliding-window rate limiter,
//! data-URI encoding and decoding, and the decision logic of two editing
//! backends.

pub mod codec;
pub mod config;
pub mod error;
pub mod factory;
pub mod fal_editor;
pub mod google_nano_banana;
pub mod image_utils;
pub mod pipeline;
pub mod rate_limit;
pub mod request;
pub mod response;
pub mod text;
