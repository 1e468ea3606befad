//! Decision logic of a 2D platformer character controller.
//!
//! Keyboard events become a level-triggered `InputState`; once per tick the
//! `Player` controller reads that state and the contact pairs of its foot
//! sensor, updates its grounded/airborne state and returns the one command
//! that the host applies to the rigid body.
pub mod input;
pub mod controller;
