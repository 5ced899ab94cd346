//! Recognising archives by the extension of their file name.

use vstd::prelude::*;
use crate::source::{file_name_from_url, file_name_spec};
use crate::text::{chars_of, find_last, last_index_of, same_chars, slice_string};

verus! {

/// The compressed tar archives that can be unpacked.
#[derive(Clone, Copy, Debug, PartialEq, Eq)]
pub enum ArchiveFormat {
    TarGz,
    TarLz4,
    TarZst,
}

/// Why a file cannot be unpacked.
#[derive(Clone, Copy, Debug, PartialEq, Eq)]
pub enum ExtractError {
    /// The file name has no extension, so the format is unknown.
    NoExtension,
    /// The extension names no supported format.
    UnsupportedFormat,
}

/// What to do with a downloaded binary.
#[derive(Clone, Copy, Debug, PartialEq, Eq)]
pub enum BinaryHandling {
    /// Unpack the archive into the workspace.
    Unpack(ArchiveFormat),
    /// Copy the file to its place and make it executable.
    Install,
}

/// The extension of the final segment of `path`: what follows its last
/// `.`, when that dot is not the segment's first character.
pub open spec fn extension_spec(path: Seq<char>) -> Option<Seq<char>> {
    let name = file_name_spec(path);
    let k = last_index_of(name, '.');
    if k <= 0 {
        None
    } else {
        Some(name.subrange(k + 1, name.len() as int))
    }
}

pub open spec fn format_of_extension(ext: Seq<char>) -> Option<ArchiveFormat> {
    if ext == seq!['g', 'z'] || ext == seq!['t', 'g', 'z'] {
        Some(ArchiveFormat::TarGz)
    } else if ext == seq!['l', 'z', '4'] {
        Some(ArchiveFormat::TarLz4)
    } else if ext == seq!['z', 's', 't'] {
        Some(ArchiveFormat::TarZst)
    } else {
        None
    }
}

pub open spec fn archive_format_spec(path: Seq<char>) -> Result<ArchiveFormat, ExtractError> {
    match extension_spec(path) {
        None => Err(ExtractError::NoExtension),
        Some(ext) => match format_of_extension(ext) {
            Some(f) => Ok(f),
            None => Err(ExtractError::UnsupportedFormat),
        },
    }
}

/// The extension of the final segment of `path`, as characters.
fn extension_chars(path: &str) -> (r: Option<Vec<char>>)
    ensures
        match r {
            Some(v) => extension_spec(path@) == Some(v@),
            None => extension_spec(path@) is None,
        },
{
    let name = file_name_from_url(path);
    let cs = chars_of(name.as_str());
    match find_last(&cs, '.') {
        Some(k) => {
            if k == 0 {
                None
            } else {
                let ext = slice_string(name.as_str(), k + 1, cs.len());
                Some(chars_of(ext.as_str()))
            }
        },
        None => None,
    }
}

fn format_of_chars(ext: &Vec<char>) -> (r: Option<ArchiveFormat>)
    ensures
        r == format_of_extension(ext@),
{
    let gz: Vec<char> = vec!['g', 'z'];
    let tgz: Vec<char> = vec!['t', 'g', 'z'];
    let lz4: Vec<char> = vec!['l', 'z', '4'];
    let zst: Vec<char> = vec!['z', 's', 't'];
    assert(gz@ == seq!['g', 'z']);
    assert(tgz@ == seq!['t', 'g', 'z']);
    assert(lz4@ == seq!['l', 'z', '4']);
    assert(zst@ == seq!['z', 's', 't']);
    if same_chars(ext, &gz) || same_chars(ext, &tgz) {
        Some(ArchiveFormat::TarGz)
    } else if same_chars(ext, &lz4) {
        Some(ArchiveFormat::TarLz4)
    } else if same_chars(ext, &zst) {
        Some(ArchiveFormat::TarZst)
    } else {
        None
    }
}

/// The format of the archive at `path`, told by its extension.
pub fn archive_format(path: &str) -> (r: Result<ArchiveFormat, ExtractError>)
    ensures
        r == archive_format_spec(path@),
{
    match extension_chars(path) {
        None => Err(ExtractError::NoExtension),
        Some(ext) => match format_of_chars(&ext) {
            Some(f) => Ok(f),
            None => Err(ExtractError::UnsupportedFormat),
        },
    }
}

/// A binary whose name ends in an archive extension is unpacked; any other
/// file is installed as it is.
pub fn binary_handling(path: &str) -> (r: BinaryHandling)
    ensures
        r == (match archive_format_spec(path@) {
            Ok(f) => BinaryHandling::Unpack(f),
            Err(_) => BinaryHandling::Install,
        }),
{
    match archive_format(path) {
        Ok(f) => BinaryHandling::Unpack(f),
        Err(_) => BinaryHandling::Install,
    }
}

} // verus!
