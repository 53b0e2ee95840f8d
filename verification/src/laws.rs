//! What holds of the accessor's operations taken together.

use crate::accessor::read_result;
use crate::accessor::Jar;
use crate::accessor::READ_ERROR;
use crate::model::has_member;
use crate::model::member_data;
use crate::model::member_index;
use crate::model::names_distinct;
use crate::model::names_of;
use crate::zip_reader::zip_directory;
use vstd::prelude::*;

verus! {

/// The list of names holds one name for each member, in the members' order,
/// no name twice, and a name is in the list exactly where a member carries
/// it.
pub proof fn names_listed_once(jar: Jar)
    requires
        names_distinct(jar@),
    ensures
        names_of(jar@).len() == jar@.len(),
        forall|i: int| 0 <= i < jar@.len() ==> names_of(jar@)[i] == jar@[i].name,
        names_of(jar@).no_duplicates(),
        forall|name: Seq<char>| names_of(jar@).contains(name) <==> has_member(jar@, name),
{
    let names = names_of(jar@);
    assert forall|name: Seq<char>| names.contains(name) <==> has_member(jar@, name) by {
        if names.contains(name) {
            let i = choose|i: int| 0 <= i < names.len() && names[i] == name;
            assert(jar@[i].name == name);
        }
        if has_member(jar@, name) {
            let i = member_index(jar@, name);
            assert(names[i] == name);
        }
    }
}

/// Under a name that carries a member, a read looks at that member and at
/// no other.
pub proof fn name_finds_its_member(jar: Jar, i: int)
    requires
        names_distinct(jar@),
        0 <= i < jar@.len(),
    ensures
        has_member(jar@, jar@[i].name),
        member_index(jar@, jar@[i].name) == i,
        member_data(jar@, jar@[i].name) == jar@[i].data,
{
    let name = jar@[i].name;
    assert(has_member(jar@, name));
    let j = member_index(jar@, name);
    assert(jar@[j].name == name);
    if j < i {
        assert(jar@[j].name != jar@[i].name);
    }
    if i < j {
        assert(jar@[i].name != jar@[j].name);
    }
}

/// A read by a listed name succeeds and returns the member's bytes, where
/// the member can be read in full.
pub proof fn listed_member_is_read(jar: Jar, i: int, result: Result<Vec<u8>, &'static str>)
    requires
        names_distinct(jar@),
        0 <= i < jar@.len(),
        jar@[i].data is Some,
        read_result(jar@, names_of(jar@)[i], result),
    ensures
        result matches Ok(contents) && Some(contents@) == jar@[i].data,
{
    name_finds_its_member(jar, i);
}

/// A read by a listed name fails with the read error where the member cannot
/// be read in full.
pub proof fn unreadable_member_fails(jar: Jar, i: int, result: Result<Vec<u8>, &'static str>)
    requires
        names_distinct(jar@),
        0 <= i < jar@.len(),
        jar@[i].data is None,
        read_result(jar@, names_of(jar@)[i], result),
    ensures
        result matches Err(e) && e@ == READ_ERROR@,
{
    name_finds_its_member(jar, i);
}

/// A read by a name that is not listed fails with the read error.
pub proof fn unlisted_name_fails(jar: Jar, name: Seq<char>, result: Result<Vec<u8>, &'static str>)
    requires
        !names_of(jar@).contains(name),
        read_result(jar@, name, result),
    ensures
        result matches Err(e) && e@ == READ_ERROR@,
{
    if has_member(jar@, name) {
        let i = member_index(jar@, name);
        assert(names_of(jar@)[i] == name);
    }
}

/// Reading is idempotent: a second read by the same name, from the accessor
/// as the first read left it, returns what the first returned, byte for byte
/// on success and the same error on failure.
pub proof fn repeated_reads_agree(
    before: Jar,
    after: Jar,
    name: Seq<char>,
    first: Result<Vec<u8>, &'static str>,
    second: Result<Vec<u8>, &'static str>,
)
    requires
        read_result(before@, name, first),
        after@ == before@,
        read_result(after@, name, second),
    ensures
        first is Ok <==> second is Ok,
        first matches Ok(a) ==> second matches Ok(b) && a@ == b@,
        first matches Err(a) ==> second matches Err(b) && a@ == b@,
{
}

/// Two accessors opened on the same bytes are independent: they hold the
/// same members, and whatever the first has been asked since, held here in
/// `first_after`, the second lists and returns what the first did when it
/// was opened.
pub proof fn accessors_are_independent(
    bytes: Seq<u8>,
    first: Jar,
    first_after: Jar,
    second: Jar,
    name: Seq<char>,
    result: Result<Vec<u8>, &'static str>,
)
    requires
        zip_directory(bytes) == Some(first@),
        zip_directory(bytes) == Some(second@),
        first_after@ == first@,
        read_result(second@, name, result),
    ensures
        second@ == first@,
        names_of(second@) == names_of(first@),
        read_result(first@, name, result),
        read_result(first_after@, name, result),
{
}

} // verus!
