//! Layout of floated boxes: intrinsic-width bubbling, width assignment,
//! height assignment with footprint registration, and paint-list assembly
//! for a float flow and the flows it contains.

pub mod geometry;
pub mod model;
pub mod float_context;
pub mod display_list;
pub mod render_box;
pub mod flow;
pub mod float_flow;
pub mod laws;
