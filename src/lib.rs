//! CPU topology and clock introspection for Apple-silicon machines, with the
//! small pieces of process and feature reporting that sit beside it.

pub mod decode;
pub mod status;
pub mod topology;
pub mod frequency;
pub mod naming;
pub mod platform;
pub mod process;
pub mod features;
