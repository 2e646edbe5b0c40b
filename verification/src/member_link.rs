//! Member links: which Roblox criteria a server checks, and which Discord roles follow
//! from them.
use vstd::prelude::*;
use crate::roles::{changes_for, RoleChange, RoleChangeKind};

verus! {

/// One condition of a member link on the member's Roblox account.
#[derive(Clone, Copy, Debug, PartialEq, Eq, Structural)]
pub enum CriteriaItem {
    GroupMembership { group_id: u64 },
    GroupMembershipRole { group_id: u64, role_id: u64 },
    ValidAccount,
}

/// The conditions of a member link; all of them must hold.
pub struct CriteriaModel {
    pub items: Vec<CriteriaItem>,
}

/// What a member link does to a member whose account meets, or fails, its criteria.
pub enum Connector {
    Nickname,
    Roles { target_role_ids: Vec<u64> },
}

/// The effects of a member link.
pub struct ConnectorsModel {
    pub items: Vec<Connector>,
}

/// A server's rule that ties Roblox criteria to Discord effects.
pub struct MemberLinkModel {
    pub connectors: ConnectorsModel,
    pub criteria: CriteriaModel,
    pub display_name: String,
    pub id: u64,
}

impl Default for CriteriaModel {
    fn default() -> (model: CriteriaModel)
        ensures
            model.items@.len() == 0,
    {
        CriteriaModel { items: Vec::new() }
    }
}

impl Default for ConnectorsModel {
    fn default() -> (model: ConnectorsModel)
        ensures
            model.items@.len() == 0,
    {
        ConnectorsModel { items: Vec::new() }
    }
}

/// The Roblox groups a member belongs to, and the role held in each of them.
pub struct GroupStanding {
    pub group_ids: Vec<u64>,
    pub group_roles: Vec<(u64, u64)>,
}

/// Whether one condition holds for a member in the given groups with the given roles.
pub open spec fn item_met(item: CriteriaItem, group_ids: Seq<u64>, group_roles: Seq<(u64, u64)>) -> bool {
    match item {
        CriteriaItem::GroupMembership { group_id } => group_ids.contains(group_id),
        CriteriaItem::GroupMembershipRole { group_id, role_id } => group_roles.contains(
            (group_id, role_id),
        ),
        CriteriaItem::ValidAccount => true,
    }
}

/// Whether every condition holds.
pub open spec fn criteria_met(items: Seq<CriteriaItem>, group_ids: Seq<u64>, group_roles: Seq<(u64, u64)>) -> bool {
    forall|i: int| 0 <= i < items.len() ==> item_met(#[trigger] items[i], group_ids, group_roles)
}

/// Whether a condition asks about group membership.
pub open spec fn is_group_item(item: CriteriaItem) -> bool {
    !(item is ValidAccount)
}

/// Whether judging the links needs the member's Roblox group memberships.
pub open spec fn links_need_groups(links: Seq<MemberLinkModel>) -> bool {
    exists|i: int, j: int|
        0 <= i < links.len() && 0 <= j < links[i].criteria.items@.len()
            && is_group_item(#[trigger] links[i].criteria.items@[j])
}

/// Whether every effect of every link is a role effect.
pub open spec fn links_only_roles(links: Seq<MemberLinkModel>) -> bool {
    forall|i: int, j: int|
        0 <= i < links.len() && 0 <= j < links[i].connectors.items@.len()
            ==> #[trigger] links[i].connectors.items@[j] is Roles
}

/// The role changes that the effects bring, each of `kind`, in order.
pub open spec fn connector_changes(connectors: Seq<Connector>, kind: RoleChangeKind) -> Seq<RoleChange>
    decreases connectors.len(),
{
    if connectors.len() == 0 {
        Seq::empty()
    } else {
        connector_changes(connectors.drop_last(), kind) + match connectors.last() {
            Connector::Roles { target_role_ids } => changes_for(kind, target_role_ids@),
            Connector::Nickname => Seq::empty(),
        }
    }
}

/// Assign when the criteria are met, remove when they are not.
pub open spec fn kind_for(met: bool) -> RoleChangeKind {
    if met { RoleChangeKind::Assign } else { RoleChangeKind::Remove }
}

/// The role changes that a list of member links brings for a member, link after link.
pub open spec fn link_changes(links: Seq<MemberLinkModel>, group_ids: Seq<u64>, group_roles: Seq<(u64, u64)>) -> Seq<RoleChange>
    decreases links.len(),
{
    if links.len() == 0 {
        Seq::empty()
    } else {
        let link = links.last();
        link_changes(links.drop_last(), group_ids, group_roles) + connector_changes(
            link.connectors.items@,
            kind_for(criteria_met(link.criteria.items@, group_ids, group_roles)),
        )
    }
}

/// A link's conditions fail as soon as one of them fails, wherever it stands: a member
/// who misses any condition of a link has each of its target roles removed.
pub proof fn lemma_unmet_condition_removes(link: MemberLinkModel, group_ids: Seq<u64>, group_roles: Seq<(u64, u64)>, k: int)
    requires
        0 <= k < link.criteria.items@.len(),
        !item_met(link.criteria.items@[k], group_ids, group_roles),
    ensures
        !criteria_met(link.criteria.items@, group_ids, group_roles),
        link_changes(seq![link], group_ids, group_roles) == connector_changes(
            link.connectors.items@,
            RoleChangeKind::Remove,
        ),
{
    let links = seq![link];
    assert(links.drop_last() =~= Seq::<MemberLinkModel>::empty());
    assert(links.last() == link);
    assert(link_changes(Seq::<MemberLinkModel>::empty(), group_ids, group_roles) == Seq::<RoleChange>::empty());
    assert(kind_for(criteria_met(link.criteria.items@, group_ids, group_roles)) == RoleChangeKind::Remove);
    assert(link_changes(links, group_ids, group_roles) == link_changes(links.drop_last(), group_ids, group_roles)
        + connector_changes(links.last().connectors.items@, RoleChangeKind::Remove));
    assert(Seq::<RoleChange>::empty() + connector_changes(link.connectors.items@, RoleChangeKind::Remove)
        =~= connector_changes(link.connectors.items@, RoleChangeKind::Remove));
}

/// A member who meets every condition of a link has each of its target roles assigned.
pub proof fn lemma_met_conditions_assign(link: MemberLinkModel, group_ids: Seq<u64>, group_roles: Seq<(u64, u64)>)
    requires
        forall|k: int|
            0 <= k < link.criteria.items@.len() ==> item_met(#[trigger] link.criteria.items@[k], group_ids, group_roles),
    ensures
        criteria_met(link.criteria.items@, group_ids, group_roles),
        link_changes(seq![link], group_ids, group_roles) == connector_changes(
            link.connectors.items@,
            RoleChangeKind::Assign,
        ),
{
    let links = seq![link];
    assert(links.drop_last() =~= Seq::<MemberLinkModel>::empty());
    assert(links.last() == link);
    assert(link_changes(Seq::<MemberLinkModel>::empty(), group_ids, group_roles) == Seq::<RoleChange>::empty());
    assert(kind_for(criteria_met(link.criteria.items@, group_ids, group_roles)) == RoleChangeKind::Assign);
    assert(link_changes(links, group_ids, group_roles) == link_changes(links.drop_last(), group_ids, group_roles)
        + connector_changes(links.last().connectors.items@, RoleChangeKind::Assign));
    assert(Seq::<RoleChange>::empty() + connector_changes(link.connectors.items@, RoleChangeKind::Assign)
        =~= connector_changes(link.connectors.items@, RoleChangeKind::Assign));
}

/// A group condition in any link, at any position, makes the member's group standing
/// needed.
pub proof fn lemma_group_condition_needs_standing(links: Seq<MemberLinkModel>, i: int, j: int)
    requires
        0 <= i < links.len(),
        0 <= j < links[i].criteria.items@.len(),
        !(links[i].criteria.items@[j] is ValidAccount),
    ensures
        links_need_groups(links),
{
    assert(is_group_item(links[i].criteria.items@[j]));
}

/// When the links need no group standing, the role changes they bring are the same
/// whatever the member's groups and roles, so judging them without fetching the
/// standing gives the right changes.
pub proof fn lemma_standing_irrelevant_without_group_conditions(
    links: Seq<MemberLinkModel>,
    group_ids: Seq<u64>,
    group_roles: Seq<(u64, u64)>,
)
    requires
        !links_need_groups(links),
    ensures
        link_changes(links, group_ids, group_roles) == link_changes(links, Seq::empty(), Seq::empty()),
    decreases links.len(),
{
    if links.len() > 0 {
        let prefix = links.drop_last();
        assert(!links_need_groups(prefix)) by {
            if links_need_groups(prefix) {
                let (a, b) = choose|a: int, b: int|
                    0 <= a < prefix.len() && 0 <= b < prefix[a].criteria.items@.len()
                        && is_group_item(#[trigger] prefix[a].criteria.items@[b]);
                assert(links[a] == prefix[a]);
                assert(is_group_item(links[a].criteria.items@[b]));
            }
        }
        lemma_standing_irrelevant_without_group_conditions(prefix, group_ids, group_roles);
        let items = links.last().criteria.items@;
        assert forall|k: int| 0 <= k < items.len() implies #[trigger] items[k] is ValidAccount by {
            if !(items[k] is ValidAccount) {
                assert(is_group_item(links[links.len() - 1].criteria.items@[k]));
            }
        }
        assert(criteria_met(items, group_ids, group_roles));
        assert(criteria_met(items, Seq::empty(), Seq::empty()));
    }
}

fn contains_u64(items: &Vec<u64>, value: u64) -> (found: bool)
    ensures
        found == items@.contains(value),
{
    let mut i: usize = 0;
    while i < items.len()
        invariant
            i <= items@.len(),
            forall|k: int| 0 <= k < i ==> items@[k] != value,
        decreases items@.len() - i,
    {
        if items[i] == value {
            return true;
        }
        i = i + 1;
    }
    false
}

fn contains_pair(items: &Vec<(u64, u64)>, value: (u64, u64)) -> (found: bool)
    ensures
        found == items@.contains(value),
{
    let mut i: usize = 0;
    while i < items.len()
        invariant
            i <= items@.len(),
            forall|k: int| 0 <= k < i ==> items@[k] != value,
        decreases items@.len() - i,
    {
        let item = items[i];
        if item.0 == value.0 && item.1 == value.1 {
            return true;
        }
        i = i + 1;
    }
    false
}

fn item_is_met(item: CriteriaItem, standing: &GroupStanding) -> (met: bool)
    ensures
        met == item_met(item, standing.group_ids@, standing.group_roles@),
{
    match item {
        CriteriaItem::GroupMembership { group_id } => contains_u64(&standing.group_ids, group_id),
        CriteriaItem::GroupMembershipRole { group_id, role_id } => contains_pair(
            &standing.group_roles,
            (group_id, role_id),
        ),
        CriteriaItem::ValidAccount => true,
    }
}

/// The groups whose role a member link's conditions read, in the order they are
/// judged: the conditions are judged in order up to the first that fails, and each
/// group-role condition among them reads the member's role in its group.
pub open spec fn items_reached(items: Seq<CriteriaItem>, group_ids: Seq<u64>, group_roles: Seq<(u64, u64)>) -> Seq<u64>
    decreases items.len(),
{
    if items.len() == 0 {
        Seq::empty()
    } else {
        let here = match items[0] {
            CriteriaItem::GroupMembershipRole { group_id, .. } => seq![group_id],
            _ => Seq::empty(),
        };
        if item_met(items[0], group_ids, group_roles) {
            here + items_reached(items.skip(1), group_ids, group_roles)
        } else {
            here
        }
    }
}

/// The groups whose role the links' conditions read, link after link.
pub open spec fn links_reached(links: Seq<MemberLinkModel>, group_ids: Seq<u64>, group_roles: Seq<(u64, u64)>) -> Seq<u64>
    decreases links.len(),
{
    if links.len() == 0 {
        Seq::empty()
    } else {
        links_reached(links.drop_last(), group_ids, group_roles) + items_reached(
            links.last().criteria.items@,
            group_ids,
            group_roles,
        )
    }
}

/// The groups whose role the conditions of `links` read when judged for a member in
/// `standing`, in order.
pub fn reached_role_groups(links: &Vec<MemberLinkModel>, standing: &GroupStanding) -> (groups: Vec<u64>)
    ensures
        groups@ == links_reached(links@, standing.group_ids@, standing.group_roles@),
{
    let ghost gids = standing.group_ids@;
    let ghost groles = standing.group_roles@;
    let mut groups: Vec<u64> = Vec::new();
    let mut i: usize = 0;
    while i < links.len()
        invariant
            i <= links@.len(),
            gids == standing.group_ids@,
            groles == standing.group_roles@,
            groups@ == links_reached(links@.take(i as int), gids, groles),
        decreases links@.len() - i,
    {
        let items = &links[i].criteria.items;
        let ghost before = groups@;
        let ghost all = items@;
        let mut j: usize = 0;
        let mut stopped = false;
        assert(items@.skip(0) =~= items@);
        while j < items.len() && !stopped
            invariant
                i < links@.len(),
                items@ == links@[i as int].criteria.items@,
                all == items@,
                gids == standing.group_ids@,
                groles == standing.group_roles@,
                j <= items@.len(),
                !stopped ==> groups@ + items_reached(all.skip(j as int), gids, groles) == before + items_reached(all, gids, groles),
                stopped ==> groups@ == before + items_reached(all, gids, groles),
            decreases items@.len() - j + (if stopped { 0int } else { 1int }),
        {
            let item = items[j];
            let ghost rest = all.skip(j as int);
            assert(rest[0] == item);
            assert(rest.skip(1) =~= all.skip(j + 1));
            let ghost prior = groups@;
            match item {
                CriteriaItem::GroupMembershipRole { group_id, .. } => groups.push(group_id),
                _ => {},
            }
            let met = item_is_met(item, standing);
            if met {
                assert(groups@ + items_reached(all.skip(j + 1), gids, groles) =~= prior + items_reached(rest, gids, groles));
                j = j + 1;
            } else {
                assert(groups@ =~= prior + items_reached(rest, gids, groles));
                assert(groups@ + Seq::<u64>::empty() =~= groups@);
                stopped = true;
            }
        }
        proof {
            if !stopped {
                assert(all.skip(j as int) =~= Seq::<CriteriaItem>::empty());
                assert(groups@ + Seq::<u64>::empty() =~= groups@);
            }
            assert(links@.take(i + 1).drop_last() =~= links@.take(i as int));
            assert(links@.take(i + 1).last() == links@[i as int]);
        }
        i = i + 1;
    }
    assert(links@.take(i as int) =~= links@);
    groups
}

impl CriteriaModel {
    /// Whether a member in `standing` meets every condition; the check stops at the first
    /// condition that fails.
    pub fn is_met(&self, standing: &GroupStanding) -> (met: bool)
        ensures
            met == criteria_met(self.items@, standing.group_ids@, standing.group_roles@),
            met <==> forall|i: int|
                0 <= i < self.items@.len() ==> item_met(
                    #[trigger] self.items@[i],
                    standing.group_ids@,
                    standing.group_roles@,
                ),
    {
        let mut i: usize = 0;
        while i < self.items.len()
            invariant
                i <= self.items@.len(),
                forall|k: int| 0 <= k < i ==> item_met(
                    #[trigger] self.items@[k],
                    standing.group_ids@,
                    standing.group_roles@,
                ),
            decreases self.items@.len() - i,
        {
            if !item_is_met(self.items[i], standing) {
                return false;
            }
            i = i + 1;
        }
        true
    }

    /// Whether some condition asks about group membership.
    pub fn needs_groups(&self) -> (needs: bool)
        ensures
            needs == exists|j: int| 0 <= j < self.items@.len() && is_group_item(#[trigger] self.items@[j]),
    {
        let mut i: usize = 0;
        while i < self.items.len()
            invariant
                i <= self.items@.len(),
                forall|k: int| 0 <= k < i ==> !is_group_item(#[trigger] self.items@[k]),
            decreases self.items@.len() - i,
        {
            match self.items[i] {
                CriteriaItem::ValidAccount => {},
                _ => {
                    return true;
                },
            }
            i = i + 1;
        }
        false
    }
}

/// Whether judging the links needs the member's group memberships.
pub fn links_need_group_standing(links: &Vec<MemberLinkModel>) -> (needs: bool)
    ensures
        needs == links_need_groups(links@),
        needs <==> exists|i: int, j: int|
            0 <= i < links@.len() && 0 <= j < links@[i].criteria.items@.len() && !(
            #[trigger] links@[i].criteria.items@[j] is ValidAccount),
{
    let mut i: usize = 0;
    while i < links.len()
        invariant
            i <= links@.len(),
            forall|a: int, b: int|
                0 <= a < i && 0 <= b < links@[a].criteria.items@.len()
                    ==> !is_group_item(#[trigger] links@[a].criteria.items@[b]),
        decreases links@.len() - i,
    {
        if links[i].criteria.needs_groups() {
            return true;
        }
        i = i + 1;
    }
    false
}

/// Whether every effect of every link is a role effect.
pub fn links_have_only_role_effects(links: &Vec<MemberLinkModel>) -> (only_roles: bool)
    ensures
        only_roles == links_only_roles(links@),
{
    let mut i: usize = 0;
    while i < links.len()
        invariant
            i <= links@.len(),
            forall|a: int, b: int|
                0 <= a < i && 0 <= b < links@[a].connectors.items@.len()
                    ==> #[trigger] links@[a].connectors.items@[b] is Roles,
        decreases links@.len() - i,
    {
        let connectors = &links[i].connectors.items;
        let mut j: usize = 0;
        while j < connectors.len()
            invariant
                i < links@.len(),
                connectors@ == links@[i as int].connectors.items@,
                j <= connectors@.len(),
                forall|b: int| 0 <= b < j ==> #[trigger] connectors@[b] is Roles,
            decreases connectors@.len() - j,
        {
            match &connectors[j] {
                Connector::Roles { .. } => {},
                Connector::Nickname => {
                    return false;
                },
            }
            j = j + 1;
        }
        i = i + 1;
    }
    true
}

/// The role changes that `links` bring for a member in `standing`: for each link in turn,
/// each of its target roles is assigned when the link's criteria are met and removed
/// when they are not.
pub fn collect_role_changes(links: &Vec<MemberLinkModel>, standing: &GroupStanding) -> (changes: Vec<RoleChange>)
    requires
        links_only_roles(links@),
    ensures
        changes@ == link_changes(links@, standing.group_ids@, standing.group_roles@),
{
    let mut changes: Vec<RoleChange> = Vec::new();
    let mut i: usize = 0;
    while i < links.len()
        invariant
            i <= links@.len(),
            links_only_roles(links@),
            changes@ == link_changes(links@.take(i as int), standing.group_ids@, standing.group_roles@),
        decreases links@.len() - i,
    {
        let link = &links[i];
        let met = link.criteria.is_met(standing);
        let kind = if met { RoleChangeKind::Assign } else { RoleChangeKind::Remove };
        let ghost before = changes@;
        let connectors = &link.connectors.items;
        let mut j: usize = 0;
        while j < connectors.len()
            invariant
                i < links@.len(),
                links_only_roles(links@),
                connectors@ == links@[i as int].connectors.items@,
                j <= connectors@.len(),
                changes@ == before + connector_changes(connectors@.take(j as int), kind),
            decreases connectors@.len() - j,
        {
            assert(connectors@[j as int] is Roles);
            match &connectors[j] {
                Connector::Roles { target_role_ids } => {
                    RoleChange::extend_with_many(&mut changes, kind, target_role_ids.as_slice());
                },
                Connector::Nickname => {},
            }
            proof {
                assert(connectors@.take(j + 1).drop_last() =~= connectors@.take(j as int));
            }
            j = j + 1;
        }
        proof {
            assert(connectors@.take(j as int) =~= connectors@);
            assert(links@.take(i + 1).drop_last() =~= links@.take(i as int));
        }
        i = i + 1;
    }
    assert(links@.take(i as int) =~= links@);
    changes
}

} // verus!
