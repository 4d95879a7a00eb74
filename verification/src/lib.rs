//! Host-side bridge that watches pieces of host machine state and streams
//! their changes as compact, self-delimiting binary frames onto a shared
//! outbound channel.
//!
//! The verified core covers the frame codec (tag + fixed-length payload),
//! the change-suppression and shutdown decisions of the polling provider,
//! and the wait/deregister decisions of the notification provider. The
//! channel and the clock are reached through a few small trusted wrappers.

pub mod codec;
pub mod link;
pub mod outbound;
pub mod providers;
