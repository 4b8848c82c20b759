//! Collects embeds from chat messages and decides what is stored about each of them.

pub mod cache;
pub mod embed;
pub mod intake;
pub mod laws;
pub mod links;
pub mod oembed;
pub mod session;
pub mod supervise;
pub mod text;
