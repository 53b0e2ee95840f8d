//! The accessor: one opened archive, its member names and its members' bytes.

use crate::model::member_data;
use crate::model::names_distinct;
use crate::model::Member;
use crate::zip_reader::archive_directory;
use crate::zip_reader::archive_file_names;
use crate::zip_reader::open_member;
use crate::zip_reader::parse_archive;
use crate::zip_reader::read_to_end;
use crate::zip_reader::zip_directory;
use std::io::Cursor;
use vstd::prelude::*;
use zip::read::ZipArchive;
use zip::result::ZipError;

verus! {

/// The one error of `open`, whatever its cause.
pub const OPEN_ERROR: &'static str = "Could not open the file!";

/// The one error of `file_contents_by_name`, whatever its cause.
pub const READ_ERROR: &'static str = "Could not read contents of requested file.";

/// A read-only accessor over one archive. It owns the archive's bytes and the
/// ZIP reader over them.
pub struct Jar {
    archive: ZipArchive<Cursor<Vec<u8>>>,
}

impl View for Jar {
    type V = Seq<Member>;

    /// The members of the archive, in the order of its central directory.
    closed spec fn view(&self) -> Seq<Member> {
        archive_directory(self.archive)
    }
}

/// The members that an accessor opened on this source holds: those of the
/// bytes, where the source could be read and its bytes are a ZIP archive.
pub open spec fn opened_directory(source: Result<Vec<u8>, std::io::Error>) -> Option<Seq<Member>> {
    match source {
        Ok(bytes) => zip_directory(bytes@),
        Err(_) => None,
    }
}

/// What a read of the member of this name returns from an archive of these
/// members.
pub open spec fn read_result(
    members: Seq<Member>,
    name: Seq<char>,
    result: Result<Vec<u8>, &'static str>,
) -> bool {
    match result {
        Ok(contents) => member_data(members, name) == Some(contents@),
        Err(e) => member_data(members, name) is None && e@ == READ_ERROR@,
    }
}

/// The contents of a member once its stream has been read to the end: the
/// buffer on success, the read error on failure. A buffer that a failed read
/// left partly filled is dropped.
pub fn read_outcome(outcome: Result<usize, std::io::Error>, contents: Vec<u8>) -> (result: Result<
    Vec<u8>,
    &'static str,
>)
    ensures
        match outcome {
            Ok(_) => result == Ok::<Vec<u8>, &'static str>(contents),
            Err(_) => result matches Err(e) && e@ == READ_ERROR@,
        },
{
    match outcome {
        Ok(_) => Ok(contents),
        Err(_) => Err(READ_ERROR),
    }
}

impl Jar {
    /// The accessor over an archive that the ZIP reader has parsed, or the
    /// open error where it has not.
    pub fn from_parsed(parsed: Result<ZipArchive<Cursor<Vec<u8>>>, ZipError>) -> (result: Result<
        Jar,
        &'static str,
    >)
        ensures
            match parsed {
                Ok(archive) => result matches Ok(jar) && jar@ == archive_directory(archive),
                Err(_) => result matches Err(e) && e@ == OPEN_ERROR@,
            },
    {
        match parsed {
            Ok(archive) => Ok(Jar { archive }),
            Err(_) => Err(OPEN_ERROR),
        }
    }

    /// Opens an archive from the outcome of reading its file. It succeeds
    /// exactly where the file could be read and its bytes are a ZIP archive;
    /// the accessor then holds the members of the central directory, no two
    /// under one name. Every failure is the same open error.
    pub fn open(source: Result<Vec<u8>, std::io::Error>) -> (result: Result<Jar, &'static str>)
        ensures
            match result {
                Ok(jar) => opened_directory(source) == Some(jar@) && names_distinct(jar@),
                Err(e) => opened_directory(source) is None && e@ == OPEN_ERROR@,
            },
    {
        match source {
            Ok(bytes) => Jar::from_parsed(parse_archive(bytes)),
            Err(_) => Err(OPEN_ERROR),
        }
    }

    /// The bytes of the member of exactly this name, read and decompressed
    /// anew at each call. It fails with the read error where no member has
    /// the name and where the member cannot be read in full. The accessor
    /// holds the same members afterwards, whether the read succeeded or not.
    pub fn file_contents_by_name(&mut self, jar_member_filename: &String) -> (result: Result<
        Vec<u8>,
        &'static str,
    >)
        ensures
            final(self)@ == old(self)@,
            read_result(old(self)@, jar_member_filename@, result),
    {
        match open_member(&mut self.archive, jar_member_filename.as_str()) {
            Ok(mut reader) => {
                let mut contents: Vec<u8> = Vec::new();
                let outcome = read_to_end(&mut reader, &mut contents);
                read_outcome(outcome, contents)
            },
            Err(_) => Err(READ_ERROR),
        }
    }

    /// The names of the members, each member's name once, in the order of the
    /// central directory.
    pub fn file_names(&self) -> (names: Vec<&str>)
        ensures
            names@.len() == self@.len(),
            forall|i: int| 0 <= i < names@.len() ==> (#[trigger] names@[i])@ == self@[i].name,
    {
        archive_file_names(&self.archive)
    }
}

} // verus!
