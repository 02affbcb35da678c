//! Guest-side network bootstrap decisions for a minimal virtual machine: the
//! hostname to apply, how a helper program ended, the network mode's connector,
//! the command lines of the network backend and graphics proxy, and the errors
//! of each step with their messages.
pub mod decimal;
pub mod error;
pub mod exit;
pub mod hostname;
pub mod net;
pub mod sommelier;
