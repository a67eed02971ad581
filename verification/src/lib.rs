//! Continuous, timer-paced analog acquisition through a double-buffered
//! transfer engine.
//!
//! A periodic trigger source paces a conversion unit; a transfer engine moves
//! every conversion result into one of two alternating sample buffers; a
//! hand-off protocol marks each filled buffer ready for the consumer while the
//! other buffer fills, and restarts the transfer after an overrun.
//!
//! - [`controller`] holds the protocol: what each signal of the hardware means
//!   for the roles of the buffers and for the life cycle of the acquisition,
//!   and what is to be done to the hardware in answer.
//! - [`trigger`], [`converter`] and [`engine`] describe the three hardware
//!   units: what they can be set up with, and how they behave.
//! - [`pipeline`] wires the controller and the three units together, so that
//!   the whole acquisition can be driven without a device, and [`laws`] proves
//!   what holds of every acquisition.
//! - [`registers`] gives the control and status words of the units, bit for
//!   bit, and [`spin`] a bounded wait for a hardware condition.

pub mod buffer;
pub mod controller;
pub mod converter;
pub mod engine;
pub mod error;
pub mod laws;
pub mod pipeline;
pub mod registers;
pub mod spin;
pub mod state;
pub mod trigger;
