//! A particle-and-constraint physics solver for the plane: point masses joined
//! by distance constraints, advanced one fixed time step at a time.
//!
//! A [`Scene`] owns particles and constraints. One [`Scene::step`] first
//! moves the particles towards satisfying the constraints, in a fixed number
//! of passes, and then integrates every particle over the time step.
//!
//! Numbers are single-precision and held by their bit patterns ([`Scalar`]).
//! The contracts of the scene speak of a mathematical model of it, the
//! [`World`]; what holds of every world is proved in [`laws`].

pub mod constraint;
pub mod error;
mod fxmap;
pub mod ids;
pub mod laws;
pub mod manager;
pub mod particle;
pub mod scalar;
pub mod scene;
pub mod solver;
pub mod vec2;
pub mod world;

pub use constraint::{Cmp, Pair, Projective};
pub use error::SceneError;
pub use ids::{ConstraintId, ParticleId};
pub use manager::ParticleManager;
pub use particle::{Particle, Particles};
pub use scalar::Scalar;
pub use scene::{Scene, Settings};
pub use vec2::Vec2;
pub use world::World;
