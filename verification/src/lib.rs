//! Authoritative core of a multiplayer world server: frame codec and
//! session cipher, spatial bookkeeping, the shared player registry with
//! area-of-interest broadcast, the per-connection protocol state machine,
//! and the single-pass tick engine for simulated entities, together with
//! the combat, skill, siege and crafting rule calculators they feed.

pub mod black_knights;
pub mod cipher;
pub mod codec;
pub mod combat;
pub mod engine;
pub mod grid;
pub mod packet;
pub mod position;
pub mod registry;
mod rng;
pub mod session;
pub mod siege;
pub mod siege_buff;
pub mod skills;
pub mod vulcan;
