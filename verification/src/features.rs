//! Decoding one feature class and joining each shape with its elevation.

use vstd::prelude::*;
use crate::error::MeshError;
use crate::geometry::{Contour, FieldValue, Point2, Shape};

verus! {

/// `shapefile::Error`, carried from a failed call to the place that maps it.
#[verifier::external_type_specification]
#[verifier::external_body]
pub struct ExShapeError(shapefile::Error);

/// `shapefile::dbase::Error`, carried from a failed call to the place that maps it.
#[verifier::external_type_specification]
#[verifier::external_body]
pub struct ExTableError(shapefile::dbase::Error);

/// The shapes that a geometry buffer holds, in storage order; `None` where
/// the buffer does not decode.
pub uninterp spec fn decoded_shapes(shp: Seq<u8>) -> Option<Seq<Shape>>;

/// What the records of an attribute buffer hold under one field name, in
/// storage order, `None` for a record without that field; `None` as a whole
/// where the buffer does not decode.
pub uninterp spec fn decoded_field(dbf: Seq<u8>, field: Seq<char>) -> Option<Seq<Option<FieldValue>>>;

/// `shapefile::ShapeReader::new` over a `std::io::Cursor`, then `read`. Each
/// shape read is turned into a `Shape`: a point and a polyline keep their
/// coordinates, as bit patterns, and every other kind becomes `Shape::Other`.
/// Trusted: the call succeeds exactly on the buffers that `decoded_shapes`
/// knows, with those shapes.
#[verifier::external_body]
fn decode_shapes(shp: Vec<u8>) -> (r: Result<Vec<Shape>, shapefile::Error>)
    ensures
        match r {
            Ok(shapes) => decoded_shapes(shp@) == Some(shapes@),
            Err(_) => decoded_shapes(shp@) is None,
        },
{
    let shapes = shapefile::ShapeReader::new(std::io::Cursor::new(shp))?.read()?;
    Ok(shapes.into_iter().map(|shape| match shape {
        shapefile::Shape::Point(p) => Shape::Point(Point2 { x: p.x.to_bits(), y: p.y.to_bits() }),
        shapefile::Shape::Polyline(line) => Shape::Polyline(line.into_inner().into_iter().map(|part|
            part.into_iter().map(|p| Point2 { x: p.x.to_bits(), y: p.y.to_bits() }).collect()
        ).collect()),
        _ => Shape::Other,
    }).collect())
}

/// `shapefile::dbase::Reader::new` over a `std::io::Cursor`, then `read`, then
/// `Record::get` on each record. Each value found is turned into a
/// `FieldValue`: a numeric one keeps its number, as a bit pattern, and every
/// other kind becomes `FieldValue::Other`. Trusted: the call succeeds exactly
/// on the buffers that `decoded_field` knows, with those values.
#[verifier::external_body]
fn decode_field(dbf: Vec<u8>, field: &str) -> (r: Result<Vec<Option<FieldValue>>, shapefile::dbase::Error>)
    ensures
        match r {
            Ok(values) => decoded_field(dbf@, field@) == Some(values@),
            Err(_) => decoded_field(dbf@, field@) is None,
        },
{
    let records = shapefile::dbase::Reader::new(std::io::Cursor::new(dbf))?.read()?;
    Ok(records.iter().map(|record| record.get(field).map(|value| match value {
        shapefile::dbase::FieldValue::Numeric(n) => FieldValue::Numeric(n.map(|h| h.to_bits())),
        _ => FieldValue::Other,
    })).collect())
}

/// The name of the field that holds a feature's elevation.
pub const ELEVATION_FIELD: &'static str = "PROP_VALUE";

/// The elevation that stands in for a field which is present but not numeric:
/// positive infinity.
pub const SENTINEL_HEIGHT: u64 = 0x7FF0_0000_0000_0000;

/// The elevation that a record gives. A record without the field, or with the
/// field left blank, has none. A field of another kind than numeric does not
/// fail: it gives `SENTINEL_HEIGHT`.
pub open spec fn height_of(field: Option<FieldValue>) -> Result<u64, MeshError> {
    match field {
        Some(FieldValue::Numeric(Some(height))) => Ok(height),
        Some(FieldValue::Other) => Ok(SENTINEL_HEIGHT),
        Some(FieldValue::Numeric(None)) | None => Err(MeshError::MissingAttributeField),
    }
}

/// Resolves the elevation of one record.
pub fn resolve_height(field: Option<FieldValue>) -> (r: Result<u64, MeshError>)
    ensures
        r == height_of(field),
{
    match field {
        Some(FieldValue::Numeric(Some(height))) => Ok(height),
        Some(FieldValue::Other) => Ok(SENTINEL_HEIGHT),
        _ => Err(MeshError::MissingAttributeField),
    }
}

/// The contours of one feature class: shape `i` with the elevation of record
/// `i`. Shapes and records that differ in number do not pair, and one record
/// without an elevation fails the whole class.
pub open spec fn joined(shapes: Seq<Shape>, fields: Seq<Option<FieldValue>>) -> Result<Seq<Contour>, MeshError> {
    if shapes.len() != fields.len() {
        Err(MeshError::AttributeDecodeError)
    } else if exists|i: int| 0 <= i < fields.len() && height_of(#[trigger] fields[i]) is Err {
        Err(MeshError::MissingAttributeField)
    } else {
        Ok(
            Seq::new(
                shapes.len(),
                |i: int| (Contour { shape: shapes[i], height: height_of(fields[i])->Ok_0 }),
            ),
        )
    }
}

/// Joins the shapes of one feature class with the elevations of its records.
pub fn join_features(shapes: Vec<Shape>, fields: Vec<Option<FieldValue>>) -> (r: Result<Vec<Contour>, MeshError>)
    ensures
        match joined(shapes@, fields@) {
            Ok(contours) => r matches Ok(v) && v@ == contours,
            Err(e) => r matches Err(f) && f == e,
        },
{
    if shapes.len() != fields.len() {
        return Err(MeshError::AttributeDecodeError);
    }
    let mut contours: Vec<Contour> = Vec::new();
    let ghost all = shapes@;
    for shape in iter: shapes.into_iter()
        invariant
            iter.seq() == all,
            all.len() == fields@.len(),
            contours@.len() == iter.index(),
            forall|k: int| 0 <= k < iter.index() ==> height_of(#[trigger] fields@[k]) is Ok,
            forall|k: int| 0 <= k < iter.index() ==> #[trigger] contours@[k] == (Contour {
                shape: all[k],
                height: height_of(fields@[k])->Ok_0,
            }),
    {
        let i: usize = contours.len();
        match resolve_height(fields[i]) {
            Ok(height) => contours.push(Contour { shape, height }),
            Err(e) => {
                return Err(e);
            },
        }
    }
    assert(contours@ =~= joined(all, fields@)->Ok_0);
    Ok(contours)
}

/// The contours that a geometry buffer and its attribute buffer decode to.
/// The geometry is decoded first, so its failure is the one reported where
/// both buffers are corrupt.
pub open spec fn features_of(shp: Seq<u8>, dbf: Seq<u8>) -> Result<Seq<Contour>, MeshError> {
    match decoded_shapes(shp) {
        None => Err(MeshError::GeometryDecodeError),
        Some(shapes) => match decoded_field(dbf, ELEVATION_FIELD@) {
            None => Err(MeshError::AttributeDecodeError),
            Some(fields) => joined(shapes, fields),
        },
    }
}

/// Decodes the two buffers of one feature class and joins each shape with the
/// elevation of its record. Any failure ends the reading of the whole class:
/// no shorter list is handed out.
pub fn read_features(shp: Vec<u8>, dbf: Vec<u8>) -> (r: Result<Vec<Contour>, MeshError>)
    ensures
        match features_of(shp@, dbf@) {
            Ok(contours) => r matches Ok(v) && v@ == contours,
            Err(e) => r matches Err(f) && f == e,
        },
{
    let shapes = match decode_shapes(shp) {
        Ok(shapes) => shapes,
        Err(_) => {
            return Err(MeshError::GeometryDecodeError);
        },
    };
    let fields = match decode_field(dbf, ELEVATION_FIELD) {
        Ok(fields) => fields,
        Err(_) => {
            return Err(MeshError::AttributeDecodeError);
        },
    };
    join_features(shapes, fields)
}

} // verus!
