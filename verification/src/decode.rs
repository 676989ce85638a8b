//! The trusted boundary to the archive-format libraries.
//!
//! Decoding an archive's bytes into entries is the format libraries' work
//! and is not re-implemented here; each decoder is wrapped once, and what a
//! wrapper returns is named by an uninterpreted function of the input bytes
//! alone — decoding is deterministic, so the same bytes always give the
//! same entries. Everything done with the entries afterwards is verified.

use vstd::prelude::*;

use crate::entries::{entries_view, ArchiveEntry};

verus! {

/// What gzip decompression makes of a byte sequence: the decompressed bytes,
/// or `None` when they do not decode.
pub uninterp spec fn gunzip_of(data: Seq<u8>) -> Option<Seq<u8>>;

/// Relies on flate2's `GzDecoder`: gzip decompression is a function of the
/// input bytes alone, succeeding exactly when they decode.
#[verifier::external_body]
pub fn gunzip(data: &Vec<u8>) -> (r: Result<Vec<u8>, String>)
    ensures
        match r {
            Ok(v) => gunzip_of(data@) == Some(v@),
            Err(_) => gunzip_of(data@) is None,
        },
{
    let mut d = flate2::read::GzDecoder::new(data.as_slice());
    let mut out = Vec::new();
    match std::io::Read::read_to_end(&mut d, &mut out) {
        Ok(_) => Ok(out),
        Err(e) => Err(e.to_string()),
    }
}

/// What the zip format makes of a byte sequence: the entries — name,
/// directory flag, decompressed bytes — or `None` when parsing fails.
pub uninterp spec fn zip_entries_of(data: Seq<u8>) -> Option<
    Seq<(Seq<char>, bool, Seq<u8>)>,
>;

/// Relies on the zip crate's `ZipArchive`: a zip archive's entries, in index
/// order, are a function of the archive's bytes alone, delivered exactly
/// when the bytes parse. The directory flag is the zip crate's own notion —
/// a name ending in a path separator, `/` or `\`; symbolic-link entries
/// carry their target string as their bytes and are written out like any
/// other file entry.
#[verifier::external_body]
pub fn zip_entries(data: &Vec<u8>) -> (r: Result<Vec<ArchiveEntry>, String>)
    ensures
        match r {
            Ok(v) => zip_entries_of(data@) == Some(entries_view(v@)),
            Err(_) => zip_entries_of(data@) is None,
        },
{
    let cursor = std::io::Cursor::new(data.as_slice());
    let mut archive = zip::ZipArchive::new(cursor).map_err(|e| e.to_string())?;
    let mut out = Vec::new();
    for i in 0..archive.len() {
        let mut f = archive.by_index(i).map_err(|e| e.to_string())?;
        let (name, is_dir) = (f.name().to_string(), f.is_dir());
        let mut bytes = Vec::new();
        std::io::Read::read_to_end(&mut f, &mut bytes).map_err(|e| e.to_string())?;
        out.push(ArchiveEntry { name, is_dir, data: bytes });
    }
    Ok(out)
}

/// What the tar format makes of a byte sequence: the entries in archive
/// order, or `None` when reading fails.
pub uninterp spec fn tar_entries_of(data: Seq<u8>) -> Option<
    Seq<(Seq<char>, bool, Seq<u8>)>,
>;

/// Relies on the tar crate's `Archive`: a tar archive's entries, in archive
/// order, are a function of the archive's bytes alone, delivered exactly
/// when the bytes read as a tar stream. This view carries a name, a
/// directory flag and bytes only: a link or special entry arrives as a
/// non-directory entry with empty bytes, so the plan places an empty file
/// at its name rather than a link.
#[verifier::external_body]
pub fn tar_entries(data: &Vec<u8>) -> (r: Result<Vec<ArchiveEntry>, String>)
    ensures
        match r {
            Ok(v) => tar_entries_of(data@) == Some(entries_view(v@)),
            Err(_) => tar_entries_of(data@) is None,
        },
{
    let mut archive = tar::Archive::new(data.as_slice());
    let mut out = Vec::new();
    for entry in archive.entries().map_err(|e| e.to_string())? {
        let mut entry = entry.map_err(|e| e.to_string())?;
        let name = String::from_utf8_lossy(&entry.path_bytes()).into_owned();
        let is_dir = entry.header().entry_type().is_dir();
        let mut bytes = Vec::new();
        std::io::Read::read_to_end(&mut entry, &mut bytes).map_err(|e| e.to_string())?;
        out.push(ArchiveEntry { name, is_dir, data: bytes });
    }
    Ok(out)
}

/// What the 7z format makes of a byte sequence: the entries in archive
/// order, or `None` when decoding fails.
pub uninterp spec fn sevenz_entries_of(data: Seq<u8>) -> Option<
    Seq<(Seq<char>, bool, Seq<u8>)>,
>;

/// Relies on sevenz-rust's `SevenZReader`: a 7z archive's entries, in
/// archive order, are a function of the archive's bytes alone, delivered
/// exactly when the bytes decode.
#[verifier::external_body]
pub fn sevenz_entries(data: &Vec<u8>) -> (r: Result<Vec<ArchiveEntry>, String>)
    ensures
        match r {
            Ok(v) => sevenz_entries_of(data@) == Some(entries_view(v@)),
            Err(_) => sevenz_entries_of(data@) is None,
        },
{
    let cursor = std::io::Cursor::new(data.as_slice());
    let pw = sevenz_rust::Password::empty();
    let mut rd = sevenz_rust::SevenZReader::new(cursor, data.len() as u64, pw).map_err(|e| e.to_string())?;
    let mut out = Vec::new();
    rd.for_each_entries(|entry, source| {
        let mut bytes = Vec::new();
        if !entry.is_directory() {
            std::io::Read::read_to_end(source, &mut bytes)?;
        }
        out.push(ArchiveEntry { name: entry.name().to_string(), is_dir: entry.is_directory(), data: bytes });
        Ok(true)
    }).map_err(|e| e.to_string())?;
    Ok(out)
}

} // verus!
