//! A plugin archive: a zip container read from memory.
//!
//! The container format is the `zip` crate's business. This module says what
//! the runtime relies on: an archive is a numbered list of entries, each with
//! a name and with contents, either of which may be unreadable, and reading
//! an entry does not change the list.

use vstd::prelude::*;
use std::io::Cursor;
use std::io::Read;
use zip::result::ZipError;
use zip::ZipArchive;
use crate::error::InstallError;
use crate::utils::is_path_separator;

verus! {

/// `zip::ZipArchive`, the reader of a zip container.
#[verifier::external_type_specification]
#[verifier::external_body]
#[verifier::reject_recursive_types(R)]
pub struct ExZipArchive<R>(ZipArchive<R>);

/// `std::io::Cursor`, which lets the bytes of an archive be read from memory.
#[verifier::external_type_specification]
#[verifier::external_body]
#[verifier::reject_recursive_types(T)]
pub struct ExCursor<T>(Cursor<T>);

/// `zip::result::ZipError`, the failure of an operation on a container.
#[verifier::external_type_specification]
#[verifier::external_body]
pub struct ExZipError(ZipError);

/// Whether `ZipArchive::new` accepts `bytes` as a zip container.
pub uninterp spec fn is_zip_archive(bytes: Seq<u8>) -> bool;

/// The names of the entries of `archive`, by index: at each index below
/// `ZipArchive::len` the name that `ZipFile::name` gives for the entry that
/// `ZipArchive::by_index` returns, or `None` where `by_index` fails.
pub uninterp spec fn archive_names(archive: ZipArchive<Cursor<Vec<u8>>>) -> Seq<Option<Seq<char>>>;

/// The contents of the entries of `archive`, by index: at each index below
/// `ZipArchive::len` the bytes that reading the entry to its end yields, or
/// `None` where `ZipArchive::by_index` or the reading fails.
pub uninterp spec fn archive_contents(archive: ZipArchive<Cursor<Vec<u8>>>) -> Seq<Option<Seq<u8>>>;

/// A name that stands for a directory: its last character is a slash or a
/// backslash.
pub open spec fn is_directory_name(name: Seq<char>) -> bool {
    name.len() > 0 && is_path_separator(name.last())
}

/// What the directory of an archive says of one entry.
#[derive(Debug, PartialEq, Eq)]
pub struct EntryHeader {
    /// The entry's name: its path inside the archive.
    pub name: String,
    /// Whether the name stands for a directory.
    pub is_directory: bool,
}

/// Calls `ZipArchive::new` on a cursor over `bytes`. It succeeds on the bytes
/// that `is_zip_archive` names, and on no others.
#[verifier::external_body]
fn open_archive(bytes: Vec<u8>) -> (opened: Result<ZipArchive<Cursor<Vec<u8>>>, ZipError>)
    ensures
        opened is Ok <==> is_zip_archive(bytes@),
{
    ZipArchive::new(Cursor::new(bytes))
}

/// Calls `ZipArchive::len`: the number of entries, which is the length of
/// both lists that describe the archive.
#[verifier::external_body]
fn entry_count(archive: &ZipArchive<Cursor<Vec<u8>>>) -> (count: usize)
    ensures
        count == archive_names(*archive).len(),
        count == archive_contents(*archive).len(),
{
    archive.len()
}

/// Calls `ZipArchive::by_index` and, on the entry it returns, `ZipFile::name`
/// and `ZipFile::is_dir`. The result is the entry's name as `archive_names`
/// has it, with the flag that `is_dir` computes from the name's last
/// character; it is `None` where `by_index` fails, as it does for an index
/// that is out of range. The archive's entries are not changed.
#[verifier::external_body]
fn entry_header(archive: &mut ZipArchive<Cursor<Vec<u8>>>, index: usize) -> (header: Option<
    EntryHeader,
>)
    ensures
        archive_names(*final(archive)) == archive_names(*old(archive)),
        archive_contents(*final(archive)) == archive_contents(*old(archive)),
        index >= archive_names(*old(archive)).len() ==> header is None,
        index < archive_names(*old(archive)).len() ==> (match archive_names(*old(archive))[index as int] {
            Some(name) => header is Some && header->0.name@ == name && header->0.is_directory
                == is_directory_name(name),
            None => header is None,
        }),
{
    match archive.by_index(index) {
        Ok(file) => Some(EntryHeader { name: file.name().to_string(), is_directory: file.is_dir() }),
        Err(_) => None,
    }
}

/// Calls `ZipArchive::by_index` and reads the entry it returns to its end
/// with `Read::read_to_end`. The result is the entry's contents as
/// `archive_contents` has them; it is `None` where `by_index` or the reading
/// fails, as it does for an index that is out of range. The archive's entries
/// are not changed.
#[verifier::external_body]
fn entry_data(archive: &mut ZipArchive<Cursor<Vec<u8>>>, index: usize) -> (data: Option<Vec<u8>>)
    ensures
        archive_names(*final(archive)) == archive_names(*old(archive)),
        archive_contents(*final(archive)) == archive_contents(*old(archive)),
        index >= archive_contents(*old(archive)).len() ==> data is None,
        index < archive_contents(*old(archive)).len() ==> (match archive_contents(*old(archive))[index as int] {
            Some(bytes) => data is Some && data->0@ == bytes,
            None => data is None,
        }),
{
    let mut file = archive.by_index(index).ok()?;
    let mut data = Vec::new();
    match file.read_to_end(&mut data) {
        Ok(_) => Some(data),
        Err(_) => None,
    }
}

/// An opened plugin archive.
pub struct Archive {
    reader: ZipArchive<Cursor<Vec<u8>>>,
}

impl Archive {
    /// The entries' names, by index; `None` for an entry that cannot be
    /// opened.
    pub closed spec fn names(&self) -> Seq<Option<Seq<char>>> {
        archive_names(self.reader)
    }

    /// The entries' contents, by index; `None` for an entry that cannot be
    /// read.
    pub closed spec fn contents(&self) -> Seq<Option<Seq<u8>>> {
        archive_contents(self.reader)
    }

    /// Opens the archive that `bytes` hold.
    pub fn open(bytes: Vec<u8>) -> (result: Result<Archive, InstallError>)
        ensures
            result is Ok <==> is_zip_archive(bytes@),
            result is Err ==> result == Err::<Archive, InstallError>(InstallError::ArchiveUnreadable),
    {
        match open_archive(bytes) {
            Ok(reader) => Ok(Archive { reader }),
            Err(_) => Err(InstallError::ArchiveUnreadable),
        }
    }

    /// The number of entries.
    pub fn len(&self) -> (count: usize)
        ensures
            count == self.names().len(),
            count == self.contents().len(),
    {
        entry_count(&self.reader)
    }

    /// The name of the entry at `index` and whether it stands for a
    /// directory; `None` if the entry cannot be opened or `index` is out of
    /// range.
    pub fn entry_header(&mut self, index: usize) -> (header: Option<EntryHeader>)
        ensures
            final(self).names() == old(self).names(),
            final(self).contents() == old(self).contents(),
            index >= old(self).names().len() ==> header is None,
            index < old(self).names().len() ==> (match old(self).names()[index as int] {
                Some(name) => header is Some && header->0.name@ == name
                    && header->0.is_directory == is_directory_name(name),
                None => header is None,
            }),
    {
        entry_header(&mut self.reader, index)
    }

    /// The contents of the entry at `index`; `None` if the entry cannot be
    /// read or `index` is out of range.
    pub fn entry_data(&mut self, index: usize) -> (data: Option<Vec<u8>>)
        ensures
            final(self).names() == old(self).names(),
            final(self).contents() == old(self).contents(),
            index >= old(self).contents().len() ==> data is None,
            index < old(self).contents().len() ==> (match old(self).contents()[index as int] {
                Some(bytes) => data is Some && data->0@ == bytes,
                None => data is None,
            }),
    {
        entry_data(&mut self.reader, index)
    }
}

} // verus!
