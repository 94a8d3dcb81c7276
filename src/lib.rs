//! Keyboard control of a top-down player character: skin selection, facing,
//! walking velocity and which directional animation clip runs each frame.
//!
//! The library decides; the game loop around it reads the keyboard, sets the
//! physics body's velocity and advances the animation clips it is told to.
pub mod character;
pub mod movement;
