//! Locating one entry of a zip container and copying it out.

use vstd::prelude::*;
use crate::error::MeshError;

verus! {

/// `std::io::Cursor`, the reader under a container that lies in memory.
#[verifier::external_type_specification]
#[verifier::external_body]
#[verifier::reject_recursive_types(T)]
pub struct ExCursor<T>(std::io::Cursor<T>);

/// `zip::ZipArchive`, an opened container.
#[verifier::external_type_specification]
#[verifier::external_body]
#[verifier::reject_recursive_types(R)]
pub struct ExZipArchive<R>(zip::ZipArchive<R>);

/// `zip::result::ZipError`, carried from a failed call to the place that maps it.
#[verifier::external_type_specification]
#[verifier::external_body]
pub struct ExZipError(zip::result::ZipError);

/// An opened container whose bytes lie in memory.
pub type MemoryArchive = zip::ZipArchive<std::io::Cursor<Vec<u8>>>;

/// What one entry of a container offers to a reader.
pub struct EntryModel {
    /// The entry's name; `None` where the entry cannot be opened or its name
    /// cannot be decoded.
    pub name: Option<Seq<char>>,
    /// The entry's bytes after decompression; `None` where the entry cannot be
    /// opened or read to its end.
    pub data: Option<Seq<u8>>,
}

/// The entries of an opened container, in storage order.
pub uninterp spec fn archive_entries(archive: zip::ZipArchive<std::io::Cursor<Vec<u8>>>) -> Seq<EntryModel>;

/// The entries of the container that some bytes encode, in storage order;
/// `None` where the bytes do not open as a container.
pub uninterp spec fn container_entries(bytes: Seq<u8>) -> Option<Seq<EntryModel>>;

/// `zip::ZipArchive::new` over a `std::io::Cursor` that owns the bytes. Trusted:
/// the call succeeds exactly on the bytes that `container_entries` knows as a
/// container, and the archive then holds those entries.
#[verifier::external_body]
fn open_container(bytes: Vec<u8>) -> (r: Result<MemoryArchive, zip::result::ZipError>)
    ensures
        match r {
            Ok(archive) => container_entries(bytes@) == Some(archive_entries(archive)),
            Err(_) => container_entries(bytes@) is None,
        },
{
    zip::ZipArchive::new(std::io::Cursor::new(bytes))
}

/// `zip::ZipArchive::len`. Trusted: it is the number of entries.
#[verifier::external_body]
fn entry_count(archive: &MemoryArchive) -> (n: usize)
    ensures
        n == archive_entries(*archive).len(),
{
    archive.len()
}

/// `zip::ZipArchive::by_index`, then `name` on the opened entry. Trusted: the
/// result is the entry's name as `archive_entries` has it, and the archive
/// holds the same entries afterwards.
#[verifier::external_body]
fn entry_name(archive: &mut MemoryArchive, index: usize) -> (r: Option<String>)
    requires
        index < archive_entries(*old(archive)).len(),
    ensures
        archive_entries(*final(archive)) == archive_entries(*old(archive)),
        match r {
            Some(name) => archive_entries(*old(archive))[index as int].name == Some(name@),
            None => archive_entries(*old(archive))[index as int].name is None,
        },
{
    let file = archive.by_index(index).ok()?;
    let name = file.name().ok()?;
    Some(name.into_owned())
}

/// `zip::ZipArchive::by_index`, then `std::io::Read::read_to_end` on the opened
/// entry. Trusted: the result is the entry's bytes as `archive_entries` has
/// them, and the archive holds the same entries afterwards.
#[verifier::external_body]
fn entry_data(archive: &mut MemoryArchive, index: usize) -> (r: Result<Vec<u8>, zip::result::ZipError>)
    requires
        index < archive_entries(*old(archive)).len(),
    ensures
        archive_entries(*final(archive)) == archive_entries(*old(archive)),
        match r {
            Ok(buffer) => archive_entries(*old(archive))[index as int].data == Some(buffer@),
            Err(_) => archive_entries(*old(archive))[index as int].data is None,
        },
{
    let mut file = archive.by_index(index)?;
    let mut buffer: Vec<u8> = Vec::new();
    std::io::Read::read_to_end(&mut file, &mut buffer)?;
    Ok(buffer)
}

/// `str::ends_with` with a string for the pattern. Trusted: it tells whether
/// the characters of `ending` close those of `name`.
#[verifier::external_body]
fn ends_with(name: &str, ending: &str) -> (b: bool)
    ensures
        b == ending@.is_suffix_of(name@),
{
    name.ends_with(ending)
}

/// Whether an entry can be named and its name closes with `ending`.
pub open spec fn carries(entry: EntryModel, ending: Seq<char>) -> bool {
    entry.name matches Some(name) && ending.is_suffix_of(name)
}

/// Whether some entry carries `ending`.
pub open spec fn has_match(entries: Seq<EntryModel>, ending: Seq<char>) -> bool {
    exists|i: int| 0 <= i < entries.len() && carries(#[trigger] entries[i], ending)
}

/// Whether `i` is the storage index of the first entry that carries `ending`.
pub open spec fn is_first_match(entries: Seq<EntryModel>, ending: Seq<char>, i: int) -> bool {
    &&& 0 <= i < entries.len()
    &&& carries(entries[i], ending)
    &&& forall|j: int| 0 <= j < i ==> !carries(#[trigger] entries[j], ending)
}

/// The storage index of the first entry that carries `ending`, where one does.
pub open spec fn first_match(entries: Seq<EntryModel>, ending: Seq<char>) -> int {
    choose|i: int| is_first_match(entries, ending, i)
}

/// What extracting by `ending` gives: the bytes of the first entry, by storage
/// index, whose name closes with `ending`. Entries that cannot be opened are
/// passed over. Without a match the entry is reported as not found; a match
/// that cannot be read out makes the container malformed.
pub open spec fn extraction(entries: Seq<EntryModel>, ending: Seq<char>) -> Result<Seq<u8>, MeshError> {
    if has_match(entries, ending) {
        match entries[first_match(entries, ending)].data {
            Some(data) => Ok(data),
            None => Err(MeshError::MalformedContainer),
        }
    } else {
        Err(MeshError::ArchiveEntryNotFound)
    }
}

/// There is at most one first match.
pub proof fn lemma_first_match_unique(entries: Seq<EntryModel>, ending: Seq<char>, i: int)
    requires
        is_first_match(entries, ending, i),
    ensures
        has_match(entries, ending),
        first_match(entries, ending) == i,
{
    let k = first_match(entries, ending);
    assert(is_first_match(entries, ending, k));
    if k < i {
        assert(!carries(entries[k], ending));
    } else if i < k {
        assert(!carries(entries[i], ending));
    }
}

/// Extraction reports that the entry was not found exactly when no entry of
/// the container carries the ending; it then hands out no bytes.
pub proof fn lemma_not_found_iff_no_match(entries: Seq<EntryModel>, ending: Seq<char>)
    ensures
        has_match(entries, ending) <==> extraction(entries, ending) != Err::<Seq<u8>, MeshError>(
            MeshError::ArchiveEntryNotFound,
        ),
{
}

/// Opens the container that `bytes` encode.
pub fn open_archive(bytes: Vec<u8>) -> (r: Result<MemoryArchive, MeshError>)
    ensures
        match r {
            Ok(archive) => container_entries(bytes@) == Some(archive_entries(archive)),
            Err(e) => e == MeshError::MalformedContainer && container_entries(bytes@) is None,
        },
{
    match open_container(bytes) {
        Ok(archive) => Ok(archive),
        Err(_) => Err(MeshError::MalformedContainer),
    }
}

/// Finds the first entry, by storage index, whose name closes with `ending`
/// and copies its bytes into a buffer that no longer depends on the archive.
pub fn extract_match_to_memory(archive: &mut MemoryArchive, ending: &str) -> (r: Result<Vec<u8>, MeshError>)
    ensures
        archive_entries(*final(archive)) == archive_entries(*old(archive)),
        match extraction(archive_entries(*old(archive)), ending@) {
            Ok(data) => r matches Ok(buffer) && buffer@ == data,
            Err(e) => r matches Err(f) && f == e,
        },
{
    let ghost entries = archive_entries(*archive);
    let n: usize = entry_count(archive);
    let mut i: usize = 0;
    while i < n
        invariant
            archive_entries(*archive) == entries,
            entries == archive_entries(*old(archive)),
            n == entries.len(),
            i <= n,
            forall|j: int| 0 <= j < i ==> !carries(#[trigger] entries[j], ending@),
        decreases n - i,
    {
        let found: bool = match entry_name(archive, i) {
            Some(name) => ends_with(name.as_str(), ending),
            None => false,
        };
        if found {
            proof {
                lemma_first_match_unique(entries, ending@, i as int);
            }
            return match entry_data(archive, i) {
                Ok(buffer) => Ok(buffer),
                Err(_) => Err(MeshError::MalformedContainer),
            };
        }
        i += 1;
    }
    Err(MeshError::ArchiveEntryNotFound)
}

} // verus!
