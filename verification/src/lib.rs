//! Validated building blocks for coordinate conversion between
//! Japanese cartography and web mapping: the nineteen origins of the
//! Japan Plane Rectangular system, the zoom levels of slippy-map
//! tiling, and pixel and tile coordinates.  The closed numeric domains
//! are parsed and checked here; the floating-point projection formulas
//! that consume them stand outside the verified core.

pub mod decimal;
pub mod jpr_ll;
pub mod pixel_ll;
pub mod structure;

pub use decimal::parse_u8_decimal;
pub use jpr_ll::JprOrigin;

pub use pixel_ll::pixel2tile;
pub use pixel_ll::ZoomLv;
pub use structure::Pixel;
