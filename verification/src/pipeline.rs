//! From the bytes of a container to the point lists of its surface.
//!
//! A dataset holds two feature classes, contour lines and spot heights, each
//! as a geometry entry and an attribute entry. They are read in that order,
//! and the first failure ends the conversion.

use vstd::prelude::*;
use crate::archive::{
    archive_entries, container_entries, extract_match_to_memory, extraction, has_match,
    open_archive, EntryModel, MemoryArchive,
};
use crate::collect::{cloud_points, cloud_vertices, collect_points};
use crate::error::MeshError;
use crate::features::{features_of, read_features};
use crate::geometry::{Contour, Point2};

verus! {

/// The contours of the feature class whose geometry and attribute entries carry
/// the two endings.
pub open spec fn class_contours(entries: Seq<EntryModel>, shp_ending: Seq<char>, dbf_ending: Seq<char>) -> Result<
    Seq<Contour>,
    MeshError,
> {
    match extraction(entries, shp_ending) {
        Err(e) => Err(e),
        Ok(shp) => match extraction(entries, dbf_ending) {
            Err(e) => Err(e),
            Ok(dbf) => features_of(shp, dbf),
        },
    }
}

/// The contours of a dataset: those of the lines, then those of the points.
pub open spec fn dataset_contours(entries: Seq<EntryModel>) -> Result<Seq<Contour>, MeshError> {
    match class_contours(entries, "line.shp"@, "line.dbf"@) {
        Err(e) => Err(e),
        Ok(lines) => match class_contours(entries, "point.shp"@, "point.dbf"@) {
            Err(e) => Err(e),
            Ok(points) => Ok(lines + points),
        },
    }
}

/// The planar point list and the vertex buffer of the dataset in a container.
pub open spec fn dataset_points(bytes: Seq<u8>) -> Result<(Seq<Point2>, Seq<u64>), MeshError> {
    match container_entries(bytes) {
        None => Err(MeshError::MalformedContainer),
        Some(entries) => match dataset_contours(entries) {
            Err(e) => Err(e),
            Ok(contours) => Ok((cloud_points(contours), cloud_vertices(contours))),
        },
    }
}

/// Whether `ending` is one of the four endings that a dataset must carry.
pub open spec fn is_required(ending: Seq<char>) -> bool {
    ending == "line.shp"@ || ending == "line.dbf"@ || ending == "point.shp"@ || ending
        == "point.dbf"@
}

/// A container that lacks one of the four entries gives no contours at all,
/// whatever its other entries hold.
pub proof fn lemma_missing_entry_fails(entries: Seq<EntryModel>, ending: Seq<char>)
    requires
        is_required(ending),
        !has_match(entries, ending),
    ensures
        dataset_contours(entries) is Err,
{
}

/// The failure over a missing entry is `ArchiveEntryNotFound` wherever all
/// that is read before that entry was read well.
pub proof fn lemma_missing_entry_not_found(entries: Seq<EntryModel>)
    ensures
        !has_match(entries, "line.shp"@) ==> dataset_contours(entries) == Err::<
            Seq<Contour>,
            MeshError,
        >(MeshError::ArchiveEntryNotFound),
        extraction(entries, "line.shp"@) is Ok && !has_match(entries, "line.dbf"@)
            ==> dataset_contours(entries) == Err::<Seq<Contour>, MeshError>(
            MeshError::ArchiveEntryNotFound,
        ),
        class_contours(entries, "line.shp"@, "line.dbf"@) is Ok && !has_match(
            entries,
            "point.shp"@,
        ) ==> dataset_contours(entries) == Err::<Seq<Contour>, MeshError>(
            MeshError::ArchiveEntryNotFound,
        ),
        class_contours(entries, "line.shp"@, "line.dbf"@) is Ok && extraction(
            entries,
            "point.shp"@,
        ) is Ok && !has_match(entries, "point.dbf"@) ==> dataset_contours(entries) == Err::<
            Seq<Contour>,
            MeshError,
        >(MeshError::ArchiveEntryNotFound),
{
}

/// Reads one feature class out of an archive: extracts its two entries,
/// decodes them and joins each shape with its elevation.
pub fn read_class(archive: &mut MemoryArchive, shp_ending: &str, dbf_ending: &str) -> (r: Result<Vec<Contour>, MeshError>)
    ensures
        archive_entries(*final(archive)) == archive_entries(*old(archive)),
        match class_contours(archive_entries(*old(archive)), shp_ending@, dbf_ending@) {
            Ok(contours) => r matches Ok(v) && v@ == contours,
            Err(e) => r matches Err(f) && f == e,
        },
{
    let shp = extract_match_to_memory(archive, shp_ending)?;
    let dbf = extract_match_to_memory(archive, dbf_ending)?;
    read_features(shp, dbf)
}

/// Reads both feature classes of a dataset, the lines first.
pub fn read_contours(archive: &mut MemoryArchive) -> (r: Result<Vec<Contour>, MeshError>)
    ensures
        archive_entries(*final(archive)) == archive_entries(*old(archive)),
        match dataset_contours(archive_entries(*old(archive))) {
            Ok(contours) => r matches Ok(v) && v@ == contours,
            Err(e) => r matches Err(f) && f == e,
        },
{
    let mut contours = read_class(archive, "line.shp", "line.dbf")?;
    let mut points = read_class(archive, "point.shp", "point.dbf")?;
    contours.append(&mut points);
    Ok(contours)
}

/// Converts the bytes of a container into the planar point list and the
/// vertex buffer of its dataset. Point `i` of the list is vertex `i` of the
/// buffer; a triangulation of the list is a mesh over the buffer.
pub fn shp_points(bytes: Vec<u8>) -> (r: Result<(Vec<Point2>, Vec<u64>), MeshError>)
    ensures
        match dataset_points(bytes@) {
            Ok(lists) => r matches Ok(v) && v.0@ == lists.0 && v.1@ == lists.1 && v.1@.len() == 3
                * v.0@.len(),
            Err(e) => r matches Err(f) && f == e,
        },
{
    let mut archive = open_archive(bytes)?;
    let contours = read_contours(&mut archive)?;
    Ok(collect_points(&contours))
}

} // verus!
