//! Adapters to model providers: the translation of a request into a
//! provider's terms and of its answer into the gateway's.

pub mod helpers;
pub mod openai;
pub mod sglang;
