//! Static configuration of the renderer and the records built from it.

pub mod constants;
pub mod context;
pub mod debug;
pub mod extension_names;
pub mod platforms;
pub mod structures;
pub mod version;
