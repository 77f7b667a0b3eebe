//! Turning laid-out text into the facets of a closed, extruded solid.
//!
//! The crate holds the discrete half of a text-to-solid tool: which
//! glyphs are placed where along the pen, which edges of a triangulated
//! outline are its silhouette, and which facets close the solid that the
//! outline is extruded into. Coordinates are carried, never computed: a
//! caller evaluates the symbolic corners with whatever scalar type it draws
//! in.

pub mod boundary;
pub mod extrude;
pub mod font;
pub mod layout;
pub mod mesh;
pub mod orient;
pub mod text;
