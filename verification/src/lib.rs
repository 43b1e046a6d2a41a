//! Wireframe solids for animation: exact mesh descriptions, their topology,
//! and the state of an animated view.
//!
//! A mesh says where its vertices lie in exact terms (lattice corners, or
//! samples of a parametric surface) and which pairs of them are joined. The
//! animated view keeps a position for every vertex of the mesh it shows,
//! turns the positions on every tick, hands out what is to be drawn, and
//! measures the frame rate. It never computes with a position or an angle
//! itself: the host supplies the arithmetic as functions, and every contract
//! holds for whatever those functions do.

pub mod clock;
pub mod mesh;
pub mod renderer;
pub mod solids;
pub mod surfaces;
