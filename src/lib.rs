//! Prepares triangulated geometry, light records and shader bytecode for a GPU render
//! pipeline, through a staged builder whose stages can only be taken in order.

pub mod gromit;
pub mod light;
pub mod scene;
pub mod shader;
