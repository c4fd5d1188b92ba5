//! Host/guest plumbing for running Rust functions inside a WebAssembly guest:
//! the calling convention shared by both sides, the manifest that a guest
//! module carries, and the decisions the host, the build helper and the
//! `#[offload]` expansion make along the way.

pub mod abi;
pub mod error;
pub mod expand;
pub mod text;
pub mod wire;
pub mod compat;
pub mod depfile;
pub mod host;
pub mod guest_build;
pub mod manifest;
pub mod offloader;
