//! Cross-thread windowing command bus.
//!
//! Window-system calls must be made on the one thread that runs the
//! platform's blocking event loop (the owning thread). Every other thread
//! talks to it through messages. This module holds the decisions of that
//! thread as a state machine over plain values: it is told what arrived (a
//! [`Command`] from a worker, an event from the platform, or the outcome of a
//! window creation it asked for) and answers with what has to be done. The
//! caller owns the channels and the platform objects and performs the
//! actions.
//!
//! The bus is generic in the values it only carries: the graphics instance
//! `I` that a surface request lends to the owning thread, the sinks `D` and
//! `W` that subscribers register, and the device event payload `E`.

pub mod command;
pub mod state;
pub mod driver;
pub mod laws;
