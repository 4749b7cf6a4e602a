//! Engine of a pixel-painting bot: accounts that redraw a reference image on a
//! shared, rate-limited canvas.
//!
//! The crate holds the decisions; the program around it performs the network
//! calls and the sleeps that the decisions ask for.

pub mod palette;
pub mod image;
pub mod config;
pub mod draw;
pub mod session;
pub mod placement;
pub mod controller;
pub mod requests;
