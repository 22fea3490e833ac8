//! Manage multiple LLVM/Clang builds: entry resolution, official release
//! synthesis, CMake generator policy and build orchestration.
pub mod error;
pub mod text;
pub mod generator;
pub mod version;
pub mod entry;
pub mod layout;
pub mod orchestrate;
pub mod releases;
pub mod catalog;
