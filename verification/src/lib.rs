//! Screen model of a multi-grid text user interface: cells, rows, grids,
//! highlight styles, cursor state and the event applier that keeps them
//! consistent.

pub mod app;
pub mod bridge;
pub mod cursor;
pub mod elements;
pub mod grid;
pub mod highlight;
pub mod metrics;
pub mod model;
pub mod pos;
pub mod rect;
pub mod registry;
pub mod relations;
pub mod text;
pub mod textbuf;
