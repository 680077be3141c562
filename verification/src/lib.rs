//! Sequencing rules for showing one glTF model in a game-engine world.
//!
//! The engine loads the model in the background, instantiates its scene and
//! runs the callbacks. What is decided along the way lives here: what a load
//! status means for the loading state, what the spawn step needs from the
//! loaded model, and which named nodes of the spawned scene are tagged.

pub mod label;
pub mod poll;
pub mod schedule;
pub mod spawn;
pub mod state;
