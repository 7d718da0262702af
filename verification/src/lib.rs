//! Ultrasonic range finder core: a fixed-point distance calculator and the
//! cooperative state machines that drive one trigger/echo measurement cycle
//! and one status-LED blinker.
//!
//! All hardware I/O (pin levels, edge waits, timed suspensions, PWM writes)
//! is performed by the caller; the library decides, for each phase of each
//! task, what the next action is and what the next phase becomes.

pub mod blink;
pub mod distance;
pub mod ranging;
pub mod system;
