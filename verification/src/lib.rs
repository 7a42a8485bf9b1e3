//! Turns a zipped set of elevation contours and spot heights into the
//! buffers of a triangulated surface.
//!
//! The conversion runs in two verified steps around one planar
//! triangulation. [`shp_points`] reads the container, decodes both feature
//! classes, joins each shape with its elevation and flattens the contours
//! into a planar point list and a vertex buffer. The caller triangulates the
//! point list, and [`marshall_geometry`] accepts the triangles only if they
//! are a mesh over the vertex buffer.

pub mod archive;
pub mod collect;
pub mod error;
pub mod features;
pub mod geometry;
pub mod mesh;
pub mod pipeline;

pub use archive::{extract_match_to_memory, open_archive, MemoryArchive};
pub use collect::{collect_points, get_points};
pub use error::MeshError;
pub use features::{join_features, read_features, resolve_height, ELEVATION_FIELD, SENTINEL_HEIGHT};
pub use geometry::{Contour, FieldValue, Point2, Shape};
pub use mesh::{marshall_geometry, MarshallGeometry};
pub use pipeline::{read_class, read_contours, shp_points};
