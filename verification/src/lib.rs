//! A verified model of the lowest layer of a bare-metal MIPS runtime: the
//! primitive routines and the shim that reaches them, the reset sequence, the
//! link-time gate that keeps panics out, and the staging of prebuilt archives.

pub mod artifact;
pub mod instruction;
pub mod link;
pub mod reset;
pub mod routines;
pub mod staging;
pub mod symbol;
pub mod text;
