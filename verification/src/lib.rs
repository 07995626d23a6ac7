//! Verified core of a split-SSH agent transport.
//!
//! Two daemons cooperate to let an SSH client in one virtual machine talk to
//! an `ssh-agent` in another, more trusted one: a listener that owns the local
//! `SSH_AUTH_SOCK` socket, and a connector that bridges the remote RPC byte
//! stream to the real agent. This crate holds the verified logic both share:
//! the transport frame codec, the incremental frame parser, the two pump
//! state machines that decide how every read and write outcome is handled,
//! the replacement slot that swaps a live connection under both pumps, and
//! the provisioning path and file-content rules. The process, socket and
//! file-system plumbing around this logic lives outside the library and
//! drives it through these types.

pub mod client_files;
pub mod data;
pub mod debug;
pub mod dom0_files;
pub mod driver;
pub mod framing;
pub mod make_vm;
pub mod msg_header;
pub mod msgs;
pub mod plan;
pub mod pump;
pub mod salt;
pub mod server_files;
pub mod text;
