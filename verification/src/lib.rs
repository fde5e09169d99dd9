//! A discrete-time feedback control core: an engine that polices the
//! temporal validity of a measurement stream and drives a pluggable
//! control law, together with a discrete PID controller in recurrence
//! form. Scalars are exact rationals so that every numeric claim in a
//! contract is a claim about mathematical values.

pub mod decimal;
pub mod engine;
pub mod pid_controller;
pub mod rational;
pub mod servo;
