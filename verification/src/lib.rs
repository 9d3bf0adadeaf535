//! A bridge that lets RISC-V smart contracts run inside an EVM host.
//!
//! The library holds the decisions of that bridge: the syscall catalog, the
//! memory image built from an ELF file, the framing of deployment code, the
//! gas model, the dispatcher that turns an environment call into a host
//! request, and the stack of per-frame emulator contexts.
//!
//! Around the bridge it holds what a project of such contracts needs: its
//! configuration, the manifests of its packages, the order in which its
//! contracts are compiled, and the types and selectors of a contract's
//! interface.

pub mod abi;
pub mod bridge;
pub mod bytes;
pub mod codec;
pub mod compile;
pub mod config;
pub mod context;
pub mod deployable;
pub mod emulator;
pub mod frames;
pub mod gas;
pub mod hash;
pub mod loader;
pub mod manifest;
pub mod naming;
pub mod outcome;
pub mod primitives;
pub mod storage;
pub mod syscall;
pub mod testkit;
pub mod toml_tree;
