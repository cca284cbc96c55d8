//! The logic of an invisible window that takes keyboard input for a main
//! window: which key stands for which character, where each message goes, and
//! what the window asks of the platform during its life.
//!
//! Nothing here talks to the platform. Every function takes plain values,
//! among them what the platform returned, and says what is to be done next.

pub mod dispatch;
pub mod key;
pub mod window;
