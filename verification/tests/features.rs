use std::io::Cursor;

use contour_mesh::{
    join_features, read_features, resolve_height, Contour, FieldValue, MeshError, Point2, Shape,
    ELEVATION_FIELD, SENTINEL_HEIGHT,
};
use shapefile::dbase;

fn bits(value: f64) -> u64 {
    value.to_bits()
}

fn at(x: f64, y: f64) -> Point2 {
    Point2 { x: bits(x), y: bits(y) }
}

fn geometry_of_points(points: &[(f64, f64)]) -> Vec<u8> {
    let mut buffer = Vec::new();
    {
        let mut writer = shapefile::ShapeWriter::new(Cursor::new(&mut buffer));
        for (x, y) in points {
            writer.write_shape(&shapefile::Point::new(*x, *y)).unwrap();
        }
        writer.finalize().unwrap();
    }
    buffer
}

fn geometry_of_lines(lines: &[Vec<Vec<(f64, f64)>>]) -> Vec<u8> {
    let mut buffer = Vec::new();
    {
        let mut writer = shapefile::ShapeWriter::new(Cursor::new(&mut buffer));
        for parts in lines {
            let parts = parts
                .iter()
                .map(|part| part.iter().map(|(x, y)| shapefile::Point::new(*x, *y)).collect())
                .collect();
            writer.write_shape(&shapefile::Polyline::with_parts(parts)).unwrap();
        }
        writer.finalize().unwrap();
    }
    buffer
}

fn geometry_of_multipoints(groups: &[Vec<(f64, f64)>]) -> Vec<u8> {
    let mut buffer = Vec::new();
    {
        let mut writer = shapefile::ShapeWriter::new(Cursor::new(&mut buffer));
        for group in groups {
            let points = group.iter().map(|(x, y)| shapefile::Point::new(*x, *y)).collect();
            writer.write_shape(&shapefile::Multipoint::new(points)).unwrap();
        }
        writer.finalize().unwrap();
    }
    buffer
}

fn numeric_table(field: &str, values: &[Option<f64>]) -> Vec<u8> {
    let mut buffer = Vec::new();
    {
        let name = dbase::FieldName::try_from(field).unwrap();
        let mut writer = dbase::TableWriterBuilder::new()
            .add_numeric_field(name, 12, 3)
            .build_with_dest(Cursor::new(&mut buffer));
        for value in values {
            let mut record = dbase::Record::default();
            record.insert(field.to_string(), dbase::FieldValue::Numeric(*value));
            writer.write_record(&record).unwrap();
        }
        writer.finalize().unwrap();
    }
    buffer
}

fn character_table(field: &str, values: &[&str]) -> Vec<u8> {
    let mut buffer = Vec::new();
    {
        let name = dbase::FieldName::try_from(field).unwrap();
        let mut writer = dbase::TableWriterBuilder::new()
            .add_character_field(name, 12)
            .build_with_dest(Cursor::new(&mut buffer));
        for value in values {
            let mut record = dbase::Record::default();
            record.insert(field.to_string(), dbase::FieldValue::Character(Some(value.to_string())));
            writer.write_record(&record).unwrap();
        }
        writer.finalize().unwrap();
    }
    buffer
}

#[test]
fn the_elevation_field_is_prop_value() {
    assert_eq!(ELEVATION_FIELD, "PROP_VALUE");
}

#[test]
fn the_sentinel_is_positive_infinity() {
    assert_eq!(f64::from_bits(SENTINEL_HEIGHT), f64::INFINITY);
}

#[test]
fn a_numeric_field_gives_its_number() {
    assert_eq!(resolve_height(Some(FieldValue::Numeric(Some(bits(10.0))))), Ok(bits(10.0)));
    assert_eq!(resolve_height(Some(FieldValue::Numeric(Some(bits(-2.5))))), Ok(bits(-2.5)));
}

#[test]
fn a_field_of_another_kind_gives_the_sentinel() {
    assert_eq!(resolve_height(Some(FieldValue::Other)), Ok(SENTINEL_HEIGHT));
}

#[test]
fn an_absent_field_is_missing() {
    assert_eq!(resolve_height(None), Err(MeshError::MissingAttributeField));
}

#[test]
fn a_blank_numeric_field_is_missing() {
    assert_eq!(resolve_height(Some(FieldValue::Numeric(None))), Err(MeshError::MissingAttributeField));
}

#[test]
fn join_pairs_shape_and_elevation_by_position() {
    let shapes = vec![Shape::Point(at(1.0, 2.0)), Shape::Other, Shape::Polyline(vec![vec![at(0.0, 0.0)]])];
    let fields = vec![
        Some(FieldValue::Numeric(Some(bits(5.0)))),
        Some(FieldValue::Other),
        Some(FieldValue::Numeric(Some(bits(7.0)))),
    ];
    assert_eq!(
        join_features(shapes, fields),
        Ok(vec![
            Contour { shape: Shape::Point(at(1.0, 2.0)), height: bits(5.0) },
            Contour { shape: Shape::Other, height: SENTINEL_HEIGHT },
            Contour { shape: Shape::Polyline(vec![vec![at(0.0, 0.0)]]), height: bits(7.0) },
        ])
    );
}

#[test]
fn join_of_nothing_is_nothing() {
    assert_eq!(join_features(Vec::new(), Vec::new()), Ok(Vec::new()));
}

#[test]
fn join_refuses_lists_of_different_lengths() {
    let shapes = vec![Shape::Point(at(1.0, 2.0)), Shape::Point(at(3.0, 4.0))];
    let fields = vec![Some(FieldValue::Numeric(Some(bits(5.0))))];
    assert_eq!(join_features(shapes, fields), Err(MeshError::AttributeDecodeError));
    let fields = vec![None];
    assert_eq!(join_features(Vec::new(), fields), Err(MeshError::AttributeDecodeError));
}

#[test]
fn join_fails_as_a_whole_on_one_missing_elevation() {
    let shapes = vec![Shape::Point(at(1.0, 2.0)), Shape::Point(at(3.0, 4.0))];
    let fields = vec![Some(FieldValue::Numeric(Some(bits(5.0)))), None];
    assert_eq!(join_features(shapes, fields), Err(MeshError::MissingAttributeField));
}

#[test]
fn read_features_decodes_points_with_their_elevations() {
    let shp = geometry_of_points(&[(3.0, 4.0), (-1.5, 2.25)]);
    let dbf = numeric_table("PROP_VALUE", &[Some(10.0), Some(20.5)]);
    assert_eq!(
        read_features(shp, dbf),
        Ok(vec![
            Contour { shape: Shape::Point(at(3.0, 4.0)), height: bits(10.0) },
            Contour { shape: Shape::Point(at(-1.5, 2.25)), height: bits(20.5) },
        ])
    );
}

#[test]
fn read_features_keeps_parts_and_vertices_in_order() {
    let shp = geometry_of_lines(&[
        vec![vec![(0.0, 0.0), (1.0, 0.0)], vec![(2.0, 2.0), (3.0, 2.0), (4.0, 2.0)]],
        vec![vec![(9.0, 9.0), (8.0, 8.0)]],
    ]);
    let dbf = numeric_table("PROP_VALUE", &[Some(5.0), Some(6.0)]);
    assert_eq!(
        read_features(shp, dbf),
        Ok(vec![
            Contour {
                shape: Shape::Polyline(vec![
                    vec![at(0.0, 0.0), at(1.0, 0.0)],
                    vec![at(2.0, 2.0), at(3.0, 2.0), at(4.0, 2.0)],
                ]),
                height: bits(5.0),
            },
            Contour { shape: Shape::Polyline(vec![vec![at(9.0, 9.0), at(8.0, 8.0)]]), height: bits(6.0) },
        ])
    );
}

#[test]
fn read_features_reduces_other_geometry_to_other() {
    let shp = geometry_of_multipoints(&[vec![(1.0, 1.0), (2.0, 2.0)]]);
    let dbf = numeric_table("PROP_VALUE", &[Some(1.0)]);
    assert_eq!(read_features(shp, dbf), Ok(vec![Contour { shape: Shape::Other, height: bits(1.0) }]));
}

#[test]
fn read_features_of_an_empty_class_is_empty() {
    let shp = geometry_of_points(&[]);
    let dbf = numeric_table("PROP_VALUE", &[]);
    assert_eq!(read_features(shp, dbf), Ok(Vec::new()));
}

#[test]
fn read_features_reports_corrupt_geometry() {
    let dbf = numeric_table("PROP_VALUE", &[Some(10.0)]);
    assert_eq!(
        read_features(b"no geometry here".to_vec(), dbf),
        Err(MeshError::GeometryDecodeError)
    );
    let mut shp = geometry_of_points(&[(3.0, 4.0)]);
    shp.truncate(shp.len() - 4);
    let dbf = numeric_table("PROP_VALUE", &[Some(10.0)]);
    assert_eq!(read_features(shp, dbf), Err(MeshError::GeometryDecodeError));
}

#[test]
fn read_features_reports_corrupt_attributes() {
    let shp = geometry_of_points(&[(3.0, 4.0)]);
    assert_eq!(read_features(shp, Vec::new()), Err(MeshError::AttributeDecodeError));
    let shp = geometry_of_points(&[(3.0, 4.0), (5.0, 6.0)]);
    let mut dbf = numeric_table("PROP_VALUE", &[Some(10.0), Some(11.0)]);
    dbf.truncate(dbf.len() - 8);
    assert_eq!(read_features(shp, dbf), Err(MeshError::AttributeDecodeError));
}

#[test]
fn read_features_reports_geometry_first_where_both_are_corrupt() {
    assert_eq!(read_features(Vec::new(), Vec::new()), Err(MeshError::GeometryDecodeError));
}

#[test]
fn read_features_refuses_a_record_count_that_differs() {
    let shp = geometry_of_points(&[(3.0, 4.0), (5.0, 6.0)]);
    let dbf = numeric_table("PROP_VALUE", &[Some(10.0)]);
    assert_eq!(read_features(shp, dbf), Err(MeshError::AttributeDecodeError));
    let shp = geometry_of_points(&[(3.0, 4.0)]);
    let dbf = numeric_table("PROP_VALUE", &[Some(10.0), Some(11.0)]);
    assert_eq!(read_features(shp, dbf), Err(MeshError::AttributeDecodeError));
}

#[test]
fn read_features_reports_a_record_without_the_field() {
    let shp = geometry_of_points(&[(3.0, 4.0)]);
    let dbf = numeric_table("HEIGHT", &[Some(10.0)]);
    assert_eq!(read_features(shp, dbf), Err(MeshError::MissingAttributeField));
}

#[test]
fn read_features_reports_a_blank_elevation() {
    let shp = geometry_of_points(&[(3.0, 4.0), (5.0, 6.0)]);
    let dbf = numeric_table("PROP_VALUE", &[Some(10.0), None]);
    assert_eq!(read_features(shp, dbf), Err(MeshError::MissingAttributeField));
}

#[test]
fn read_features_gives_the_sentinel_for_text_in_the_field() {
    let shp = geometry_of_points(&[(3.0, 4.0)]);
    let dbf = character_table("PROP_VALUE", &["high"]);
    assert_eq!(
        read_features(shp, dbf),
        Ok(vec![Contour { shape: Shape::Point(at(3.0, 4.0)), height: SENTINEL_HEIGHT }])
    );
}
