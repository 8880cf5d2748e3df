//! Control and synthesis core of a breath-and-valve electronic trumpet.
//!
//! The control side debounces the raw inputs and turns each tick's readings
//! into events ([`interface`]), which drive a model of the instrument's
//! tubing ([`trumpet`]) to a target frequency and volume. That target
//! crosses to the audio side as one transport word ([`commands`]), where a
//! voice ([`synth`]) renders it sample by sample into output buffers
//! ([`render`]).

pub mod commands;
pub mod debouncer;
pub mod fixed_point;
pub mod interface;
pub mod io;
pub mod lists;
pub mod render;
pub mod synth;
pub mod trumpet;
