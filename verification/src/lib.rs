//! Core of a game engine whose world is a manifold: a set of coordinate
//! charts, each with its own geometry, joined by directed portals.
//!
//! The crate holds the discrete structure of that world and the rules that
//! decide over it. Every function is verified against its contract.

pub mod ecs;
pub mod input;
pub mod manifold;
pub mod math;
pub mod resources;
pub mod sequences;
pub mod text;
pub mod time;
pub mod window;

pub use ecs::{Component, Entity, PortalEntity, PortalTransitionSystem, Renderable, TransformSystem, World};
pub use input::{GamepadAxis, GamepadButton, InputAction, InputManager, KeyCode};
pub use manifold::chart::{Chart, ChartBounds, ChartId, Corner, WrapMode};
pub use manifold::geodesic::{Geodesic, GeodesicPath};
pub use manifold::metric::{GeometryType, Metric, MetricParameters};
pub use manifold::portal::{Portal, PortalConnection, PortalId, PortalShape};
pub use manifold::{Manifold, ManifoldError, ManifoldPosition};
pub use math::Ratio;
pub use resources::{ResourceManager, WorldMetadata};
pub use time::{Timer, TimerState};
pub use window::WindowBuilder;
