//! A code-execution orchestration core: pick the text to run out of an editor
//! selection, stage it for a toolchain, and classify what the toolchain
//! reports. The library performs no input or output itself; it tells its host
//! what to do next and judges what the host hands back.

pub mod data;
pub mod error;
pub mod executor;
pub mod interpreter;
pub mod interpreters;
pub mod level;
pub mod pipeline;
pub mod process;
pub mod text;
