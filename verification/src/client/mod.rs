//! The client of the model: requests, retries and the stream of its answers.
pub mod attempt;
pub mod headers;
pub mod model_client;
pub mod request;
pub mod sse;
