//! A boundary-representation geometry kernel: curves and surfaces, the topology built on
//! them, its transformation, the approximation of curves by polylines, and sweeping.
pub mod math;
pub mod geometry;
pub mod objects;
pub mod transform;
pub mod approximation;
pub mod sweep;
pub mod run;
