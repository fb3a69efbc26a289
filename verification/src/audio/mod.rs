//! What is heard: the Doppler sample history and the sounds of the world.

pub mod doppler;
pub mod world_emitter;
