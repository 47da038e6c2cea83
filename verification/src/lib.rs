//! Moderated join-request gateway: the dialogue state machine that drives a
//! join conversation, the compact wire codec that carries a moderation
//! decision inside a size-bounded button payload, and the cached remote
//! block-list gate with bounded staleness.

pub mod countersign;
pub mod dialogue;
pub mod review;
pub mod text;
