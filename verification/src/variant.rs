//! Extractor selection: the closed set of per-format strategies and the
//! deterministic mapping from a file's extension to the strategy that
//! handles it, plus the finer sub-kind the tar/gzip family reads off the
//! full file name.

use vstd::prelude::*;

use crate::chars::str_to_chars;
use crate::names::{chars_end_with, lower_eq, lower_seq};
use crate::paths::path_extension_of;

verus! {

/// The closed set of extraction strategies.
#[derive(PartialEq, Eq, Structural, Clone, Copy, Debug)]
pub enum ExtractorVariant {
    Zip,
    TarGz,
    SevenZip,
    Rar,
}

/// Which strategy an extension selects, compared without regard to ASCII
/// case; `None` for an extension this engine does not extract.
pub open spec fn variant_of_ext(e: Seq<char>) -> Option<ExtractorVariant> {
    let l = lower_seq(e);
    if l == "zip"@ {
        Some(ExtractorVariant::Zip)
    } else if l == "tar"@ || l == "tgz"@ || l == "gz"@ || l == "tar.gz"@ || l == "taz"@ {
        Some(ExtractorVariant::TarGz)
    } else if l == "7z"@ {
        Some(ExtractorVariant::SevenZip)
    } else if l == "rar"@ {
        Some(ExtractorVariant::Rar)
    } else {
        None
    }
}

/// Executable extractor selection by extension.
pub fn variant_for_extension(ext: &str) -> (r: Option<ExtractorVariant>)
    ensures
        r == variant_of_ext(ext@),
{
    let cs = str_to_chars(ext);
    if lower_eq(&cs, "zip") {
        Some(ExtractorVariant::Zip)
    } else if lower_eq(&cs, "tar") || lower_eq(&cs, "tgz") || lower_eq(&cs, "gz") || lower_eq(
        &cs,
        "tar.gz",
    ) || lower_eq(&cs, "taz") {
        Some(ExtractorVariant::TarGz)
    } else if lower_eq(&cs, "7z") {
        Some(ExtractorVariant::SevenZip)
    } else if lower_eq(&cs, "rar") {
        Some(ExtractorVariant::Rar)
    } else {
        None
    }
}

/// The strategy a path's file name selects, through its extension.
pub open spec fn variant_of_path(p: Seq<char>) -> Option<ExtractorVariant> {
    match path_extension_of(p) {
        Some(e) => variant_of_ext(e),
        None => None,
    }
}

/// Every extension the dispatcher admits selects a strategy: a dispatched
/// path is never dropped later for want of an extractor.
pub proof fn lemma_processable_selects_strategy(e: Seq<char>)
    requires
        crate::names::is_processable_ext(e),
    ensures
        variant_of_ext(e) is Some,
{
}

/// The sub-kinds of the tar/gzip family, read off the file name's suffix,
/// case-sensitively, as the decoder does.
#[derive(PartialEq, Eq, Structural, Clone, Copy, Debug)]
pub enum TarKind {
    /// `.tar.gz`, `.tgz` or `.taz`: gzip-decompress, then untar.
    GzippedTar,
    /// `.tar`: untar directly.
    PlainTar,
    /// `.gz` alone: decompress to a single file named after the stem.
    SingleGz,
    /// None of the suffixes: the strategy does nothing for this name.
    Other,
}

/// The tar sub-kind of a file name.
pub open spec fn tar_kind_of(name: Seq<char>) -> TarKind {
    if ".tar.gz"@.is_suffix_of(name) || ".tgz"@.is_suffix_of(name) || ".taz"@.is_suffix_of(name) {
        TarKind::GzippedTar
    } else if ".tar"@.is_suffix_of(name) {
        TarKind::PlainTar
    } else if ".gz"@.is_suffix_of(name) {
        TarKind::SingleGz
    } else {
        TarKind::Other
    }
}

/// Executable tar sub-kind selection.
pub fn tar_kind_for_name(name: &Vec<char>) -> (r: TarKind)
    ensures
        r == tar_kind_of(name@),
{
    if chars_end_with(name, ".tar.gz") || chars_end_with(name, ".tgz") || chars_end_with(
        name,
        ".taz",
    ) {
        TarKind::GzippedTar
    } else if chars_end_with(name, ".tar") {
        TarKind::PlainTar
    } else if chars_end_with(name, ".gz") {
        TarKind::SingleGz
    } else {
        TarKind::Other
    }
}

} // verus!
