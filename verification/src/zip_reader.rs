//! The ZIP reader that the accessor stands on: the `zip` crate, reading from
//! memory. Nothing in this module is proved; each contract records what the
//! crate's source shows.

use crate::model::has_member;
use crate::model::member_data;
use crate::model::members_of;
use crate::model::names_distinct;
use crate::model::Member;
use std::io::Cursor;
use vstd::prelude::*;
use zip::read::ZipArchive;
use zip::read::ZipFile;
use zip::result::ZipError;

verus! {

/// `zip::read::ZipArchive`: a parsed central directory together with the
/// reader that the members' bytes come from.
#[verifier::external_type_specification]
#[verifier::external_body]
#[verifier::reject_recursive_types(R)]
pub struct ExZipArchive<R>(ZipArchive<R>);

/// `std::io::Cursor`: a reader over bytes in memory.
#[verifier::external_type_specification]
#[verifier::external_body]
#[verifier::reject_recursive_types(T)]
pub struct ExCursor<T>(Cursor<T>);

/// `zip::result::ZipError`: why the ZIP reader gave up.
#[verifier::external_type_specification]
#[verifier::external_body]
pub struct ExZipError(ZipError);

/// `std::io::Error`: why a read gave up.
#[verifier::external_type_specification]
#[verifier::external_body]
pub struct ExIoError(std::io::Error);

/// The stream of one member's bytes, `zip::read::ZipFile`. The stream borrows
/// the archive it was opened from for as long as it lives.
#[verifier::external_body]
pub struct MemberReader<'a> {
    file: ZipFile<'a, Cursor<Vec<u8>>>,
}

/// What `ZipArchive::new` makes of these bytes: nothing where they are no ZIP
/// archive, else one pair for each member in the order of the central
/// directory, made of the member's name and of the bytes that opening the
/// member by that name and reading it to its end gives (nothing where either
/// step fails).
pub uninterp spec fn zip_members(bytes: Seq<u8>) -> Option<Seq<(Seq<char>, Option<Seq<u8>>)>>;

/// The same pairs, for an archive that has been parsed.
pub uninterp spec fn archive_members(archive: ZipArchive<Cursor<Vec<u8>>>) -> Seq<
    (Seq<char>, Option<Seq<u8>>),
>;

/// What reading this stream from where it stands to its end gives: the bytes,
/// or nothing where the read fails.
pub uninterp spec fn pending_data(reader: MemberReader<'_>) -> Option<Seq<u8>>;

/// The directory of these bytes as members, where they are a ZIP archive.
pub open spec fn zip_directory(bytes: Seq<u8>) -> Option<Seq<Member>> {
    match zip_members(bytes) {
        Some(pairs) => Some(members_of(pairs)),
        None => None,
    }
}

/// The directory of a parsed archive as members.
pub open spec fn archive_directory(archive: ZipArchive<Cursor<Vec<u8>>>) -> Seq<Member> {
    members_of(archive_members(archive))
}

/// `ZipArchive::new` over a `Cursor`: parses the central directory of the
/// bytes. It succeeds exactly where the bytes are a ZIP archive, and the
/// archive then holds the members that the bytes give. The crate keeps the
/// members in a map keyed by name, so no two of them share a name.
#[verifier::external_body]
pub(crate) fn parse_archive(bytes: Vec<u8>) -> (parsed: Result<
    ZipArchive<Cursor<Vec<u8>>>,
    ZipError,
>)
    ensures
        match parsed {
            Ok(archive) => zip_members(bytes@) == Some(archive_members(archive)) && names_distinct(
                archive_directory(archive),
            ),
            Err(_) => zip_members(bytes@) is None,
        },
{
    ZipArchive::new(Cursor::new(bytes))
}

/// `ZipArchive::file_names`: the names of the members, one for each member,
/// in the order of the central directory.
#[verifier::external_body]
pub(crate) fn archive_file_names<'a>(archive: &'a ZipArchive<Cursor<Vec<u8>>>) -> (names: Vec<
    &'a str,
>)
    ensures
        names@.len() == archive_directory(*archive).len(),
        forall|i: int|
            0 <= i < names@.len() ==> (#[trigger] names@[i])@ == archive_directory(*archive)[i].name,
{
    archive.file_names().collect()
}

/// `ZipArchive::by_name`: looks the name up among the members' names, char
/// for char, and opens a stream on the member's bytes. It fails where no
/// member has the name, and where the member's stream cannot be set up. The
/// stream that it returns gives what the directory records for that member.
/// The archive holds the same members afterwards.
#[verifier::external_body]
pub(crate) fn open_member<'a>(archive: &'a mut ZipArchive<Cursor<Vec<u8>>>, name: &str) -> (opened:
    Result<MemberReader<'a>, ZipError>)
    ensures
        archive_members(*final(archive)) == archive_members(*old(archive)),
        match opened {
            Ok(reader) => has_member(archive_directory(*old(archive)), name@) && pending_data(
                reader,
            ) == member_data(archive_directory(*old(archive)), name@),
            Err(_) => member_data(archive_directory(*old(archive)), name@) is None,
        },
{
    archive.by_name(name).map(|file| MemberReader { file })
}

/// `Read::read_to_end` on a member's stream: reads to the end of the member
/// and appends what it read to `buf`. On success it returns how many bytes it
/// appended. On failure `buf` may hold a part of the member.
#[verifier::external_body]
pub(crate) fn read_to_end(reader: &mut MemberReader<'_>, buf: &mut Vec<u8>) -> (outcome: Result<
    usize,
    std::io::Error,
>)
    ensures
        match outcome {
            Ok(n) => pending_data(*old(reader)) is Some && final(buf)@ == old(buf)@ + pending_data(
                *old(reader),
            ).unwrap() && n == pending_data(*old(reader)).unwrap().len(),
            Err(_) => pending_data(*old(reader)) is None && old(buf)@.is_prefix_of(final(buf)@),
        },
{
    std::io::Read::read_to_end(&mut reader.file, buf)
}

} // verus!
