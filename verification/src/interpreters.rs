//! The executors that ship with the library, one module each.

pub mod lua_nvim;
pub mod lua_original;
pub mod rust;

pub use lua_nvim::Lua_nvim;
pub use lua_original::Lua_original;
pub use rust::Rust;
