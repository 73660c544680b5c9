//! The authoritative world-state kernel of a real-time multiplayer server.
//!
//! The library holds the world of a planet-scale game: participants, movable objects,
//! vehicles, projectiles and spawn pools. It decides what happens on each frame that a client
//! sends and in each phase of a tick, and says what is to be sent and what the physics
//! engine is to do. It never touches a session or the engine itself.
//!
//! Every quantity that clients and the engine hold as a decimal number is held here as a
//! whole number of thousandths: millimetres for lengths, milliseconds for times.

pub mod chance;
pub mod clock;
pub mod dynamic_objects;
pub mod game_state;
pub mod ids;
pub mod level;
pub mod messages;
pub mod origin;
pub mod physics;
pub mod player;
pub mod projectiles;
pub mod router;
pub mod session;
pub mod spawns;
pub mod store;
pub mod text;
pub mod vehicles;
pub mod weapons;
