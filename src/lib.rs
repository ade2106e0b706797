//! Handle registry and call-marshaling core for native webview windows.
//!
//! The [`registry`] module owns the mapping from instance identifiers to
//! native window handles; the [`bridge`] module decides, for each remote
//! operation, whether the native library is to be called and what the
//! caller receives back.

pub mod bridge;
pub mod registry;
pub mod text;
