//! A sink adapter for a structured-logging facade: it renders one log record
//! per line in a fixed format and writes the line through a destination
//! holder that serializes concurrent writers. A failed write costs at most
//! its own line; it never leaves the holder unusable.

pub mod bind;
pub mod level;
pub mod render;
pub mod sink;

pub use bind::{Binding, BindError, init, init_console, init_err_console, replace_logger};
pub use level::Level;
pub use sink::{Inner, Logger, MemBuf};
