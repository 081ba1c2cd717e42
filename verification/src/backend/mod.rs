//! The calls this library makes into other crates, each behind one small
//! function whose contract is taken on trust.
//!
//! Nothing here is proved. Every contract in this directory restates what the
//! called crate documents; the doc comment of each function says which call it
//! makes and what is claimed of it.

pub mod aead;
pub mod codec;
pub mod hash;
pub mod path;
pub mod random;
pub mod signature;
pub mod time;
