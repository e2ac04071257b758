//! A first-person player controller on exact integer arithmetic.
//!
//! The controller turns one frame's keyboard and mouse input into a camera
//! orientation and a displacement of the controlled body, and it manages the
//! cursor grab that decides whether input drives the camera at all.
//!
//! Every quantity is a whole number of a small unit, so that each step has an
//! exact result:
//!
//! * angles are counted in billionths of a degree,
//! * mouse motion in thousandths of a device count,
//! * the sensitivity in millionths of a degree for each device count and
//!   each pixel of window scale,
//! * lengths in billionths of a world unit,
//! * speeds in thousandths of a world unit per second,
//! * frame times in microseconds and window sizes in pixels.
//!
//! The engine around the controller converts at its edge: it reads the
//! platform's input into these types, and it writes the orientation and the
//! displacement that come back to its own nodes.

pub mod binding;
pub mod controller;
pub mod cursor;
pub mod look;
pub mod movement;
pub mod settings;
