//! Client-side session handling and timestamp codec for the Canary Views service.

pub mod calendar;
pub mod canary_view;
pub mod credential;
pub mod endpoint;
pub mod requests;
pub mod roundtrip;
pub mod scan;
pub mod text;
pub mod timestamp;
pub mod trust;
pub mod views_client;
