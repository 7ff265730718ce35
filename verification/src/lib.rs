//! Rigid-body physics in fixed-point arithmetic: boxes that fall, collide
//! and come to rest, a blast that throws them about, a wrecking body that
//! follows the cursor, and the scene metadata from which bodies are made.

pub mod fixed;
pub mod vector;
pub mod transform;
pub mod body;
pub mod entity_pipeline;
pub mod collision;
pub mod resolver;
pub mod integrator;
pub mod game;
pub mod interactions;
pub mod interactive_menu;
pub mod levels;
pub mod text;
pub mod menus;
pub mod world;
pub mod laws;
pub mod free_fall;
