//! Simulation core of a small side-scrolling arcade game: a flapping bird,
//! scrolling parallax layers, recycled pipe obstacles, axis-aligned collision
//! tests, a per-tick scoring pass and a scene stack.  Every quantity is kept
//! in exact integer sub-units, so the whole simulation is verified; rendering,
//! audio and persistence live outside the library and drive it with plain
//! values.

pub mod units;
pub mod config;
pub mod physics;
pub mod scroll;
pub mod background;
pub mod ground;
pub mod bird;
pub mod pipes;
pub mod button;
pub mod scoreboard;
pub mod scene;
pub mod game;
pub mod title;
pub mod manager;
