//! Time-optimal, collision-unaware trajectories for the UR arms: everything about them that is
//! decided rather than computed.

pub mod description_laws;
pub mod emit;
pub mod frames;
pub mod kinematics;
pub mod laws;
pub mod limits;
pub mod markup;
pub mod online;
pub mod path;
pub mod plan;
pub mod store;
pub mod timing;
pub mod urdf;
