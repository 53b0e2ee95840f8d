//! The mathematical model of an archive: its members in directory order.

use vstd::prelude::*;

verus! {

/// One member of an archive: its name as the directory records it, and the
/// bytes that reading it in full gives, where it can be read in full.
pub struct Member {
    pub name: Seq<char>,
    pub data: Option<Seq<u8>>,
}

/// The members that a sequence of name and data pairs stands for, in the same
/// order.
pub open spec fn members_of(pairs: Seq<(Seq<char>, Option<Seq<u8>>)>) -> Seq<Member> {
    Seq::new(pairs.len(), |i: int| Member { name: pairs[i].0, data: pairs[i].1 })
}

/// The names of the members, in the same order.
pub open spec fn names_of(members: Seq<Member>) -> Seq<Seq<char>> {
    Seq::new(members.len(), |i: int| members[i].name)
}

/// No two members carry the same name.
pub open spec fn names_distinct(members: Seq<Member>) -> bool {
    forall|i: int, j: int|
        0 <= i < j < members.len() ==> (#[trigger] members[i]).name != (#[trigger] members[j]).name
}

/// Some member carries exactly this name.
pub open spec fn has_member(members: Seq<Member>, name: Seq<char>) -> bool {
    exists|i: int| 0 <= i < members.len() && (#[trigger] members[i]).name == name
}

/// The place of a member that carries this name, where there is one.
pub open spec fn member_index(members: Seq<Member>, name: Seq<char>) -> int {
    choose|i: int| 0 <= i < members.len() && (#[trigger] members[i]).name == name
}

/// What a read of the member of this name gives: its bytes, or nothing where
/// no member has the name or the member cannot be read in full.
pub open spec fn member_data(members: Seq<Member>, name: Seq<char>) -> Option<Seq<u8>> {
    if has_member(members, name) {
        members[member_index(members, name)].data
    } else {
        None
    }
}

} // verus!
