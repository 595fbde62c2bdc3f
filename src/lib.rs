//! Typed value model of the styling layer: units, colors, geometry,
//! composite style values, the property-type registry and cascaded values.

pub mod geometry;
pub mod units;
pub mod color;
pub mod background;
pub mod border;
pub mod layout;
pub mod style;
pub mod text;
pub mod property;
pub mod cascade;
