//! Wire protocol and progress accounting for a point-to-point file transfer
//! tool: one peer pushes a file or a directory tree to another over a single
//! TCP connection. This crate holds the verified core: the binary framing
//! format with its encoder and decoder, the byte-counting progress tracker
//! with throughput formatting, and the session decision logic. The I/O shell
//! (sockets, filesystem walk, threads) lives outside and hands this crate
//! plain values.

pub mod codec;
pub mod decoder;
pub mod entry;
pub mod error;
pub mod progress;
pub mod session;
pub mod wire;

pub use codec::TYPE_DIR;
pub use codec::TYPE_FILE;
