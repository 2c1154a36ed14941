//! Watches a compositor's output topology for a projector display, plans the
//! reconfiguration commands to issue when it appears, manages the lifecycle of
//! a virtual framebuffer resource, and coordinates a cooperative shutdown.
pub mod commands;
pub mod framebuffer;
pub mod shutdown;
pub mod topology;
pub mod workflow;
