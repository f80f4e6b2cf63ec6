//! Song recognition through a remote audio-fingerprinting provider: request
//! signing, the identify request's form fields, and the normalization of the
//! provider's replies into one recognition result or one classified error.

pub mod text;
pub mod codec;
pub mod models;
pub mod acrcloud_api;
pub mod laws;
pub mod audio;
pub mod magenta;
pub mod recognition;
pub mod staff_notation;
