//! What each sub-command computes, from the bytes it was given to the value
//! it prints.

pub mod b64;
pub mod gen_pass;
pub mod http_serve;
pub mod jwt;
pub mod text;
