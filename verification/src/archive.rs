//! Reading single entries out of a ZIP archive held in memory.
//!
//! The archive format is the `zip` crate's business.  This module declares
//! the crate's reader, gives a name to what a reader lists, and searches that
//! listing in verified code.

use crate::error::Error;
use crate::text::{concat3, same};
use vstd::prelude::*;

verus! {

/// The name the DEX payload carries in an archive.
pub const DEX_ENTRY: &'static str = "classes.dex";

/// The name the DEX payload carries in archives of an older make.
pub const LEGACY_DEX_ENTRY: &'static str = "class.dex";

/// Declares `zip::ZipArchive`, the reader of the `zip` crate.  Nothing is
/// known of what is inside a value of it but what [`entries_of`] names.
#[verifier::external_type_specification]
#[verifier::external_body]
#[verifier::reject_recursive_types(R)]
pub struct ExZipArchive<R>(zip::ZipArchive<R>);

/// Declares `std::io::Cursor`, through which the reader reads bytes held in
/// memory.  Nothing is known of what is inside a value of it.
#[verifier::external_type_specification]
#[verifier::external_body]
#[verifier::reject_recursive_types(T)]
pub struct ExCursor<T>(std::io::Cursor<T>);

/// Declares `zip::result::ZipError`, the failure of the `zip` crate.
/// Nothing is known of what is inside a value of it.
#[verifier::external_type_specification]
#[verifier::external_body]
pub struct ExZipError(zip::result::ZipError);

/// What an open archive lists, entry by entry in the order of its central
/// directory.  The first part of an entry is its name, absent when the entry
/// cannot be opened or its name cannot be decoded; the second part is what
/// it holds once decompressed, absent when the entry cannot be opened or
/// read to its end.
pub uninterp spec fn entries_of(archive: zip::ZipArchive<std::io::Cursor<Vec<u8>>>) -> Seq<
    (Option<Seq<char>>, Option<Seq<u8>>),
>;

/// What `zip::ZipArchive::new` makes of `bytes`: the listing of the archive
/// they hold, or nothing if they hold none.
pub uninterp spec fn listing_of(bytes: Seq<u8>) -> Option<
    Seq<(Option<Seq<char>>, Option<Seq<u8>>)>,
>;

/// Opens the archive that `bytes` hold.
///
/// Calls `zip::ZipArchive::new` on a cursor over the bytes.  The contract
/// claims that success and the listing of the opened archive depend on the
/// bytes alone.
#[verifier::external_body]
fn open_archive(bytes: Vec<u8>) -> (r: Result<
    zip::ZipArchive<std::io::Cursor<Vec<u8>>>,
    zip::result::ZipError,
>)
    ensures
        match r {
            Ok(archive) => listing_of(bytes@) == Some(entries_of(archive)),
            Err(_) => listing_of(bytes@) is None,
        },
{
    zip::ZipArchive::new(std::io::Cursor::new(bytes))
}

/// The number of entries of an open archive.
///
/// Calls `zip::ZipArchive::len`, the number of files in the central
/// directory.
#[verifier::external_body]
fn entry_count(archive: &zip::ZipArchive<std::io::Cursor<Vec<u8>>>) -> (n: usize)
    ensures
        n == entries_of(*archive).len(),
{
    archive.len()
}

/// The name of the entry at `index`.
///
/// Calls `zip::ZipArchive::by_index` and, on the entry it opens,
/// `zip::read::ZipFile::name`.  Opening moves the reader and nothing else, so
/// the archive lists afterwards what it listed before.
#[verifier::external_body]
fn entry_name(archive: &mut zip::ZipArchive<std::io::Cursor<Vec<u8>>>, index: usize) -> (r: Result<
    String,
    zip::result::ZipError,
>)
    requires
        index < entries_of(*old(archive)).len(),
    ensures
        entries_of(*final(archive)) == entries_of(*old(archive)),
        match r {
            Ok(name) => entries_of(*old(archive))[index as int].0 == Some(name@),
            Err(_) => entries_of(*old(archive))[index as int].0 is None,
        },
{
    let entry = archive.by_index(index)?;
    let name = entry.name()?;
    Ok(name.into_owned())
}

/// What the entry at `index` holds, decompressed.
///
/// Calls `zip::ZipArchive::by_index` and reads the entry it opens to its end
/// with `std::io::Read::read_to_end`.  Reading moves the reader and nothing
/// else, so the archive lists afterwards what it listed before.
#[verifier::external_body]
fn entry_contents(archive: &mut zip::ZipArchive<std::io::Cursor<Vec<u8>>>, index: usize) -> (r:
    Result<Vec<u8>, zip::result::ZipError>)
    requires
        index < entries_of(*old(archive)).len(),
    ensures
        entries_of(*final(archive)) == entries_of(*old(archive)),
        match r {
            Ok(bytes) => entries_of(*old(archive))[index as int].1 == Some(bytes@),
            Err(_) => entries_of(*old(archive))[index as int].1 is None,
        },
{
    let mut entry = archive.by_index(index)?;
    let mut bytes = Vec::new();
    std::io::Read::read_to_end(&mut entry, &mut bytes)?;
    Ok(bytes)
}

/// The text of a failure of the `zip` crate.
///
/// Calls the `Display` implementation of `zip::result::ZipError`; nothing is
/// promised of the text.
#[verifier::external_body]
fn describe(failure: &zip::result::ZipError) -> String {
    failure.to_string()
}

/// Why an entry could not be had from an archive.
#[derive(Clone, Debug, PartialEq, Eq)]
pub enum LookupError {
    /// The bytes are no archive that can be read.
    NotAnArchive { reason: String },
    /// The entry at `index` stood in the way: it could not be opened or
    /// named, or it was the wanted one and could not be read.
    BrokenEntry { index: usize, reason: String },
    /// No entry carries the wanted name.
    NotFound { name: String },
}

/// The result of a search, as a mathematical value.
pub ghost enum Lookup {
    Found(Seq<u8>),
    NotAnArchive,
    BrokenEntry(int),
    NotFound,
}

impl LookupError {
    /// The text a failed search is reported with.
    pub fn message(&self) -> (r: String)
        ensures
            match *self {
                LookupError::NotAnArchive { reason } => r@ == reason@,
                LookupError::BrokenEntry { reason, .. } => r@ == reason@,
                LookupError::NotFound { name } => r@ == "File "@ + name@ + " not found in archive"@,
            },
    {
        match self {
            LookupError::NotAnArchive { reason } => reason.clone(),
            LookupError::BrokenEntry { reason, .. } => reason.clone(),
            LookupError::NotFound { name } => concat3("File ", name.as_str(), " not found in archive"),
        }
    }
}

/// The mathematical value of the result of a search.
pub open spec fn found(r: Result<Vec<u8>, LookupError>) -> Lookup {
    match r {
        Ok(bytes) => Lookup::Found(bytes@),
        Err(LookupError::NotAnArchive { .. }) => Lookup::NotAnArchive,
        Err(LookupError::BrokenEntry { index, .. }) => Lookup::BrokenEntry(index as int),
        Err(LookupError::NotFound { .. }) => Lookup::NotFound,
    }
}

/// Searches `entries` from position `from` on for the first entry named
/// `name` and yields what it holds.  The search walks the entries in order
/// and ends at the first one that cannot be named.
pub open spec fn scan(
    entries: Seq<(Option<Seq<char>>, Option<Seq<u8>>)>,
    name: Seq<char>,
    from: int,
) -> Lookup
    decreases entries.len() - from,
{
    if from < 0 || from >= entries.len() {
        Lookup::NotFound
    } else {
        match entries[from].0 {
            None => Lookup::BrokenEntry(from),
            Some(found) => if found == name {
                match entries[from].1 {
                    Some(bytes) => Lookup::Found(bytes),
                    None => Lookup::BrokenEntry(from),
                }
            } else {
                scan(entries, name, from + 1)
            },
        }
    }
}

/// Searches a listing, if there is one, for the first entry named `name`.
pub open spec fn lookup(
    listing: Option<Seq<(Option<Seq<char>>, Option<Seq<u8>>)>>,
    name: Seq<char>,
) -> Lookup {
    match listing {
        Some(entries) => scan(entries, name, 0),
        None => Lookup::NotAnArchive,
    }
}

/// The DEX payload of a listing: what the entry `classes.dex` holds or, when
/// that cannot be had for whatever reason, what the entry `class.dex` holds.
pub open spec fn dex_payload(listing: Option<Seq<(Option<Seq<char>>, Option<Seq<u8>>)>>) -> Lookup {
    match lookup(listing, DEX_ENTRY@) {
        Lookup::Found(bytes) => Lookup::Found(bytes),
        _ => lookup(listing, LEGACY_DEX_ENTRY@),
    }
}

/// Whether `entries` hold a payload under the older name only: no entry
/// is named `classes.dex`, the entry at `position` is the first that is named
/// `class.dex`, it can be read, and every entry ahead of it can be named.
pub open spec fn holds_legacy_payload(
    entries: Seq<(Option<Seq<char>>, Option<Seq<u8>>)>,
    position: int,
) -> bool {
    &&& 0 <= position < entries.len()
    &&& forall|i: int| 0 <= i < entries.len() ==> (#[trigger] entries[i]).0 != Some(DEX_ENTRY@)
    &&& forall|i: int|
        0 <= i < position ==> (#[trigger] entries[i]).0 is Some && entries[i].0 != Some(
            LEGACY_DEX_ENTRY@,
        )
    &&& entries[position].0 == Some(LEGACY_DEX_ENTRY@)
    &&& entries[position].1 is Some
}

/// A search that finds something finds what the first entry of that name
/// holds, and a search among entries none of which carries the name finds
/// nothing.
pub proof fn lemma_scan(
    entries: Seq<(Option<Seq<char>>, Option<Seq<u8>>)>,
    name: Seq<char>,
    from: int,
)
    requires
        0 <= from,
    ensures
        scan(entries, name, from) matches Lookup::Found(bytes) ==> exists|k: int|
            {
                &&& from <= k < entries.len()
                &&& (#[trigger] entries[k]).0 == Some(name)
                &&& entries[k].1 == Some(bytes)
                &&& forall|i: int|
                    from <= i < k ==> (#[trigger] entries[i]).0 is Some && entries[i].0 != Some(
                        name,
                    )
            },
        (forall|i: int| from <= i < entries.len() ==> (#[trigger] entries[i]).0 != Some(name))
            ==> !(scan(entries, name, from) is Found),
    decreases entries.len() - from,
{
    if from < entries.len() {
        lemma_scan(entries, name, from + 1);
        if scan(entries, name, from) is Found && entries[from].0 != Some(name) {
            let k = choose|k: int|
                {
                    &&& from + 1 <= k < entries.len()
                    &&& (#[trigger] entries[k]).0 == Some(name)
                    &&& entries[k].1 == Some(scan(entries, name, from)->Found_0)
                    &&& forall|i: int|
                        from + 1 <= i < k ==> (#[trigger] entries[i]).0 is Some && entries[i].0
                            != Some(name)
                };
            assert(entries[k].0 == Some(name));
        }
    }
}

/// A search finds the entry at `position` if that is the first of its name,
/// it can be read, and every entry ahead of it can be named.
pub proof fn lemma_scan_finds(
    entries: Seq<(Option<Seq<char>>, Option<Seq<u8>>)>,
    name: Seq<char>,
    from: int,
    position: int,
)
    requires
        0 <= from <= position < entries.len(),
        forall|i: int|
            from <= i < position ==> (#[trigger] entries[i]).0 is Some && entries[i].0 != Some(
                name,
            ),
        entries[position].0 == Some(name),
        entries[position].1 is Some,
    ensures
        scan(entries, name, from) == Lookup::Found(entries[position].1->0),
    decreases position - from,
{
    if from < position {
        assert(entries[from].0 is Some && entries[from].0 != Some(name));
        lemma_scan_finds(entries, name, from + 1, position);
    }
}

/// An archive that lists a readable entry `class.dex` and no entry
/// `classes.dex` has a payload: what its first entry `class.dex` holds.
pub proof fn lemma_legacy_payload_found(
    entries: Seq<(Option<Seq<char>>, Option<Seq<u8>>)>,
    position: int,
)
    requires
        holds_legacy_payload(entries, position),
    ensures
        dex_payload(Some(entries)) == Lookup::Found(entries[position].1->0),
{
    lemma_scan(entries, DEX_ENTRY@, 0);
    lemma_scan_finds(entries, LEGACY_DEX_ENTRY@, 0, position);
}

/// An archive that lists a readable entry `classes.dex` ahead of which every
/// entry can be named has a payload: what its first entry `classes.dex`
/// holds, whatever else it lists.
pub proof fn lemma_payload_found(
    entries: Seq<(Option<Seq<char>>, Option<Seq<u8>>)>,
    position: int,
)
    requires
        0 <= position < entries.len(),
        forall|i: int|
            0 <= i < position ==> (#[trigger] entries[i]).0 is Some && entries[i].0 != Some(
                DEX_ENTRY@,
            ),
        entries[position].0 == Some(DEX_ENTRY@),
        entries[position].1 is Some,
    ensures
        dex_payload(Some(entries)) == Lookup::Found(entries[position].1->0),
{
    lemma_scan_finds(entries, DEX_ENTRY@, 0, position);
}

/// Searches an open archive for the first entry named `file_name` and reads
/// what it holds.
pub fn find_entry(
    archive: &mut zip::ZipArchive<std::io::Cursor<Vec<u8>>>,
    file_name: &str,
) -> (r: Result<Vec<u8>, LookupError>)
    ensures
        entries_of(*final(archive)) == entries_of(*old(archive)),
        found(r) == scan(entries_of(*old(archive)), file_name@, 0),
        r matches Err(LookupError::NotFound { name }) ==> name@ == file_name@,
{
    let count = entry_count(archive);
    let mut i: usize = 0;
    while i < count
        invariant
            i <= count,
            count == entries_of(*old(archive)).len(),
            entries_of(*archive) == entries_of(*old(archive)),
            scan(entries_of(*old(archive)), file_name@, 0) == scan(
                entries_of(*old(archive)),
                file_name@,
                i as int,
            ),
        decreases count - i,
    {
        match entry_name(archive, i) {
            Ok(name) => {
                if same(name.as_str(), file_name) {
                    return match entry_contents(archive, i) {
                        Ok(bytes) => Ok(bytes),
                        Err(failure) => Err(
                            LookupError::BrokenEntry { index: i, reason: describe(&failure) },
                        ),
                    };
                }
            },
            Err(failure) => {
                return Err(LookupError::BrokenEntry { index: i, reason: describe(&failure) });
            },
        }
        i += 1;
    }
    Err(LookupError::NotFound { name: file_name.to_owned() })
}

/// Reads the first entry named `file_name` out of the archive that
/// `archive_bytes` hold.
pub fn unzip_file(archive_bytes: Vec<u8>, file_name: &str) -> (r: Result<Vec<u8>, LookupError>)
    ensures
        found(r) == lookup(listing_of(archive_bytes@), file_name@),
        r matches Err(LookupError::NotFound { name }) ==> name@ == file_name@,
{
    match open_archive(archive_bytes) {
        Ok(mut archive) => find_entry(&mut archive, file_name),
        Err(failure) => Err(LookupError::NotAnArchive { reason: describe(&failure) }),
    }
}

/// Reads the DEX payload out of the archive that `archive_bytes` hold: the
/// entry `classes.dex` or, failing that, the entry `class.dex`.
pub fn extract_dex(archive_bytes: Vec<u8>) -> (r: Result<Vec<u8>, Error>)
    ensures
        match dex_payload(listing_of(archive_bytes@)) {
            Lookup::Found(bytes) => r matches Ok(payload) && payload@ == bytes,
            Lookup::NotFound => r matches Err(Error::DexMissing { reason }) && reason@ == "File "@
                + LEGACY_DEX_ENTRY@ + " not found in archive"@,
            _ => r matches Err(Error::DexMissing { .. }),
        },
{
    match open_archive(archive_bytes) {
        Ok(mut archive) => {
            match find_entry(&mut archive, DEX_ENTRY) {
                Ok(payload) => Ok(payload),
                Err(_) => match find_entry(&mut archive, LEGACY_DEX_ENTRY) {
                    Ok(payload) => Ok(payload),
                    Err(failure) => Err(Error::DexMissing { reason: failure.message() }),
                },
            }
        },
        Err(failure) => Err(Error::DexMissing { reason: describe(&failure) }),
    }
}

} // verus!
