//! Morse-code blinking driven by text received over a TCP connection.
//!
//! The library holds the decisions of the device: how each received
//! character is classified, which timed pin operations and pauses it turns
//! into, which reply is sent for a message, and how a connection moves
//! between listening and serving. The program around it performs the
//! actions that these functions hand back.
pub mod symbol;
pub mod reply;
pub mod actuator;
pub mod interpreter;
pub mod session;
pub mod laws;
