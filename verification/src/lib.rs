//! Launch resolution for Rhythm Doctor: which program to start, with which
//! arguments, and what to try next when a way of starting the game is not
//! available on this machine.
//!
//! The heart of the library is the launch chain in [`orchestrator`], which
//! only decides, and [`rhythm_doctor::launch_rhythm_doctor`], which runs it
//! against whatever carries its actions out. What holds of every run is
//! proved in [`laws`]. [`client`] and [`library`] look for the Steam client
//! and for the game on this machine, and [`handler`] opens an address
//! with the system's program for it.

pub mod client;
pub mod command;
pub mod config_wrapper;
pub mod handler;
pub mod invocation;
pub mod laws;
pub mod library;
pub mod listener;
pub mod orchestrator;
pub mod platform;
pub mod request;
pub mod rhythm_doctor;
pub mod text;
