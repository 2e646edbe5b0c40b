//! A member's standing in Roblox groups, as the Open Cloud API reports it.
use vstd::prelude::*;
use crate::member_link::GroupStanding;
use crate::text::{parse_u64, parsed_value, parses_as_u64, segment, segment_str};

verus! {

/// One page of a user's group memberships.
pub struct GroupMemberships {
    pub items: Vec<MembershipModel>,
    pub next_page_token: Option<String>,
}

/// One group membership. `path` reads "groups/{group}/memberships/{membership}" and
/// `role` reads "groups/{group}/roles/{role}".
pub struct MembershipModel {
    path: String,
    role: String,
}

/// Whether piece `n` of the text, split at '/', is a decimal number that fits in 64 bits.
pub open spec fn numeric_piece(s: Seq<char>, n: nat) -> bool {
    segment(s, '/', n) matches Some(p) && parses_as_u64(p)
}

/// The number that piece `n` of the text, split at '/', writes.
pub open spec fn piece_value(s: Seq<char>, n: nat) -> int {
    parsed_value(segment(s, '/', n)->0)
}

impl MembershipModel {
    /// The membership's resource path.
    pub closed spec fn path_text(&self) -> Seq<char> {
        self.path@
    }

    /// The membership's role path.
    pub closed spec fn role_text(&self) -> Seq<char> {
        self.role@
    }

    pub fn new(path: String, role: String) -> (membership: MembershipModel)
        ensures
            membership.path_text() == path@,
            membership.role_text() == role@,
    {
        MembershipModel { path, role }
    }

    /// The membership's own id: the fourth piece of its path.
    pub fn id(&self) -> (id: &str)
        requires
            segment(self.path_text(), '/', 3) is Some,
        ensures
            segment(self.path_text(), '/', 3) == Some(id@),
    {
        segment_str(self.path.as_str(), '/', 3).unwrap()
    }

    /// The membership's id, or `None` where its path has fewer than four pieces.
    pub fn try_id(&self) -> (id: Option<&str>)
        ensures
            id is Some <==> segment(self.path_text(), '/', 3) is Some,
            id matches Some(i) ==> segment(self.path_text(), '/', 3) == Some(i@),
    {
        segment_str(self.path.as_str(), '/', 3)
    }

    /// The group id, or `None` where the role path's second piece is not a non-zero number.
    pub fn try_group_id(&self) -> (group_id: Option<u64>)
        ensures
            group_id is Some <==> numeric_piece(self.role_text(), 1) && piece_value(self.role_text(), 1) != 0,
            group_id matches Some(g) ==> g == piece_value(self.role_text(), 1),
    {
        match segment_str(self.role.as_str(), '/', 1) {
            Some(piece) => match parse_u64(piece) {
                Some(value) => if value == 0 { None } else { Some(value) },
                None => None,
            },
            None => None,
        }
    }

    /// The role id, or `None` where the role path's fourth piece is not a number.
    pub fn try_role_id(&self) -> (role_id: Option<u64>)
        ensures
            role_id is Some <==> numeric_piece(self.role_text(), 3),
            role_id matches Some(r) ==> r == piece_value(self.role_text(), 3),
    {
        match segment_str(self.role.as_str(), '/', 3) {
            Some(piece) => parse_u64(piece),
            None => None,
        }
    }

    /// The id of the group: the second piece of the role path, a non-zero number.
    pub fn group_id(&self) -> (group_id: u64)
        requires
            numeric_piece(self.role_text(), 1),
            piece_value(self.role_text(), 1) != 0,
        ensures
            group_id == piece_value(self.role_text(), 1),
    {
        let piece = segment_str(self.role.as_str(), '/', 1).unwrap();
        parse_u64(piece).unwrap()
    }

    /// The id of the member's role in the group: the fourth piece of the role path.
    pub fn role_id(&self) -> (role_id: u64)
        requires
            numeric_piece(self.role_text(), 3),
        ensures
            role_id == piece_value(self.role_text(), 3),
    {
        let piece = segment_str(self.role.as_str(), '/', 3).unwrap();
        parse_u64(piece).unwrap()
    }
}

/// Whether a membership's role path names a non-zero group.
pub open spec fn readable_group(m: MembershipModel) -> bool {
    &&& numeric_piece(m.role_text(), 1)
    &&& piece_value(m.role_text(), 1) != 0
}

/// The pairs of group and role of the memberships whose role path names a role, in order.
pub open spec fn readable_roles(memberships: Seq<MembershipModel>) -> Seq<(u64, u64)>
    decreases memberships.len(),
{
    if memberships.len() == 0 {
        Seq::empty()
    } else {
        let m = memberships.last();
        readable_roles(memberships.drop_last()) + if numeric_piece(m.role_text(), 3) {
            seq![(piece_value(m.role_text(), 1) as u64, piece_value(m.role_text(), 3) as u64)]
        } else {
            Seq::empty()
        }
    }
}

/// A member's standing read from their memberships: the group of each, in order, and
/// the pair of group and role of each whose role can be read.
pub fn standing_from_memberships(memberships: &Vec<MembershipModel>) -> (standing: GroupStanding)
    requires
        forall|i: int| 0 <= i < memberships@.len() ==> readable_group(#[trigger] memberships@[i]),
    ensures
        standing.group_ids@.len() == memberships@.len(),
        forall|i: int| 0 <= i < memberships@.len() ==> #[trigger] standing.group_ids@[i] == piece_value(
            memberships@[i].role_text(),
            1,
        ),
        standing.group_roles@ == readable_roles(memberships@),
{
    let mut group_ids: Vec<u64> = Vec::new();
    let mut group_roles: Vec<(u64, u64)> = Vec::new();
    let mut i: usize = 0;
    while i < memberships.len()
        invariant
            i <= memberships@.len(),
            forall|k: int| 0 <= k < memberships@.len() ==> readable_group(#[trigger] memberships@[k]),
            group_ids@.len() == i,
            forall|k: int| 0 <= k < i ==> #[trigger] group_ids@[k] == piece_value(memberships@[k].role_text(), 1),
            group_roles@ == readable_roles(memberships@.take(i as int)),
        decreases memberships@.len() - i,
    {
        assert(readable_group(memberships@[i as int]));
        let group_id = memberships[i].group_id();
        group_ids.push(group_id);
        proof {
            assert(memberships@.take(i + 1).drop_last() =~= memberships@.take(i as int));
            assert(memberships@.take(i + 1).last() == memberships@[i as int]);
        }
        match memberships[i].try_role_id() {
            Some(role_id) => {
                group_roles.push((group_id, role_id));
                assert(group_roles@ =~= readable_roles(memberships@.take(i + 1)));
            },
            None => {
                assert(group_roles@ =~= readable_roles(memberships@.take(i + 1)));
            },
        }
        i = i + 1;
    }
    assert(memberships@.take(i as int) =~= memberships@);
    GroupStanding { group_ids, group_roles }
}

} // verus!
