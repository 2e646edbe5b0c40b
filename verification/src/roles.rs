//! Role changes and how a set of them is applied to a member's roles.
use vstd::prelude::*;

verus! {

/// The outside concurrent set that holds a member's roles while changes are applied.
#[verifier::external_type_specification]
#[verifier::external_body]
#[verifier::reject_recursive_types(K)]
#[verifier::reject_recursive_types(S)]
pub struct ExDashSet<K, S>(dashmap::DashSet<K, S>);

/// What a set of role ids holds.
pub uninterp spec fn role_set_contents(set: dashmap::DashSet<u64>) -> Set<u64>;

/// `DashSet::new`: an empty set.
#[verifier::external_body]
fn role_set_new() -> (set: dashmap::DashSet<u64>)
    ensures
        role_set_contents(set) == Set::<u64>::empty(),
{
    dashmap::DashSet::new()
}

/// `DashSet::insert`: adds `role_id` and returns whether it was not there before.
#[verifier::external_body]
fn role_set_insert(set: &mut dashmap::DashSet<u64>, role_id: u64) -> (added: bool)
    ensures
        role_set_contents(*final(set)) == role_set_contents(*old(set)).insert(role_id),
        added == !role_set_contents(*old(set)).contains(role_id),
{
    set.insert(role_id)
}

/// `DashSet::remove`: takes `role_id` out and hands it back if it was there.
#[verifier::external_body]
fn role_set_remove(set: &mut dashmap::DashSet<u64>, role_id: u64) -> (removed: Option<u64>)
    ensures
        role_set_contents(*final(set)) == role_set_contents(*old(set)).remove(role_id),
        role_set_contents(*old(set)).contains(role_id) ==> removed == Some(role_id),
        !role_set_contents(*old(set)).contains(role_id) ==> removed is None,
{
    set.remove(&role_id)
}

/// `DashSet::into_iter`, collected: every item once, in an order the source leaves open.
#[verifier::external_body]
fn role_set_into_vec(set: dashmap::DashSet<u64>) -> (items: Vec<u64>)
    ensures
        items@.to_set() == role_set_contents(set),
        items@.no_duplicates(),
{
    set.into_iter().collect()
}

/// Whether a role is to be given or taken away.
#[derive(Clone, Copy, Debug, PartialEq, Eq, Structural)]
pub enum RoleChangeKind {
    Assign,
    Remove,
}

/// One role to be given to or taken from a member.
#[derive(Clone, Copy, Debug, PartialEq, Eq, Structural)]
pub struct RoleChange {
    pub kind: RoleChangeKind,
    pub role_id: u64,
}

/// The roles after one change.
pub open spec fn change_roles(roles: Set<u64>, change: RoleChange) -> Set<u64> {
    match change.kind {
        RoleChangeKind::Assign => roles.insert(change.role_id),
        RoleChangeKind::Remove => roles.remove(change.role_id),
    }
}

/// Whether a change alters the roles it is applied to.
pub open spec fn change_has_effect(roles: Set<u64>, change: RoleChange) -> bool {
    match change.kind {
        RoleChangeKind::Assign => !roles.contains(change.role_id),
        RoleChangeKind::Remove => roles.contains(change.role_id),
    }
}

/// The roles after a sequence of changes, applied in order.
pub open spec fn roles_after(roles: Set<u64>, changes: Seq<RoleChange>) -> Set<u64>
    decreases changes.len(),
{
    if changes.len() == 0 {
        roles
    } else {
        change_roles(roles_after(roles, changes.drop_last()), changes.last())
    }
}

/// The changes of a sequence that alter the roles at the point where they are applied.
pub open spec fn effective_changes(roles: Set<u64>, changes: Seq<RoleChange>) -> Seq<RoleChange>
    decreases changes.len(),
{
    if changes.len() == 0 {
        Seq::empty()
    } else {
        let before = effective_changes(roles, changes.drop_last());
        if change_has_effect(roles_after(roles, changes.drop_last()), changes.last()) {
            before.push(changes.last())
        } else {
            before
        }
    }
}

/// The changes of `kind` for each of `role_ids`, in order.
pub open spec fn changes_for(kind: RoleChangeKind, role_ids: Seq<u64>) -> Seq<RoleChange> {
    Seq::new(role_ids.len(), |i: int| RoleChange { kind, role_id: role_ids[i] })
}


/// The roles that some change of the sequence assigns.
pub open spec fn assigned_roles(changes: Seq<RoleChange>) -> Set<u64>
    decreases changes.len(),
{
    if changes.len() == 0 {
        Set::empty()
    } else if changes.last().kind == RoleChangeKind::Assign {
        assigned_roles(changes.drop_last()).insert(changes.last().role_id)
    } else {
        assigned_roles(changes.drop_last())
    }
}

/// The roles that some change of the sequence removes.
pub open spec fn removed_roles(changes: Seq<RoleChange>) -> Set<u64>
    decreases changes.len(),
{
    if changes.len() == 0 {
        Set::empty()
    } else if changes.last().kind == RoleChangeKind::Remove {
        removed_roles(changes.drop_last()).insert(changes.last().role_id)
    } else {
        removed_roles(changes.drop_last())
    }
}

/// No role is both assigned and removed by the sequence.
pub open spec fn conflict_free(changes: Seq<RoleChange>) -> bool {
    assigned_roles(changes).disjoint(removed_roles(changes))
}

proof fn lemma_prefix_roles(changes: Seq<RoleChange>)
    requires
        changes.len() > 0,
    ensures
        assigned_roles(changes.drop_last()).subset_of(assigned_roles(changes)),
        removed_roles(changes.drop_last()).subset_of(removed_roles(changes)),
{
}

/// Without conflicting changes, the roles after applying a sequence of changes are the
/// original roles plus every assigned role, minus every removed role.
pub proof fn lemma_roles_after_closed_form(roles: Set<u64>, changes: Seq<RoleChange>)
    requires
        conflict_free(changes),
    ensures
        roles_after(roles, changes) == roles.union(assigned_roles(changes)).difference(
            removed_roles(changes),
        ),
    decreases changes.len(),
{
    if changes.len() > 0 {
        let prefix = changes.drop_last();
        lemma_prefix_roles(changes);
        lemma_roles_after_closed_form(roles, prefix);
        assert(roles_after(roles, changes) =~= roles.union(assigned_roles(changes)).difference(
            removed_roles(changes),
        ));
    } else {
        assert(roles.union(Set::empty()).difference(Set::empty()) =~= roles);
    }
}

proof fn lemma_settled_prefix(settled: Set<u64>, changes: Seq<RoleChange>, full: Seq<RoleChange>)
    requires
        conflict_free(full),
        assigned_roles(changes).subset_of(assigned_roles(full)),
        removed_roles(changes).subset_of(removed_roles(full)),
        assigned_roles(full).subset_of(settled),
        removed_roles(full).disjoint(settled),
    ensures
        roles_after(settled, changes) == settled,
        effective_changes(settled, changes).len() == 0,
    decreases changes.len(),
{
    if changes.len() > 0 {
        lemma_prefix_roles(changes);
        lemma_settled_prefix(settled, changes.drop_last(), full);
        assert(roles_after(settled, changes) =~= settled);
    }
}

/// Without conflicting changes, applying the same changes a second time alters nothing:
/// the roles stay as they are and no change has an effect.
pub proof fn lemma_apply_twice_settles(roles: Set<u64>, changes: Seq<RoleChange>)
    requires
        conflict_free(changes),
    ensures
        roles_after(roles_after(roles, changes), changes) == roles_after(roles, changes),
        effective_changes(roles_after(roles, changes), changes).len() == 0,
{
    lemma_roles_after_closed_form(roles, changes);
    lemma_settled_prefix(roles_after(roles, changes), changes, changes);
}

/// The changes that had an effect bring about the same roles as the whole sequence.
pub proof fn lemma_effective_changes_suffice(roles: Set<u64>, changes: Seq<RoleChange>)
    ensures
        roles_after(roles, effective_changes(roles, changes)) == roles_after(roles, changes),
    decreases changes.len(),
{
    if changes.len() > 0 {
        let prefix = changes.drop_last();
        let c = changes.last();
        lemma_effective_changes_suffice(roles, prefix);
        let before = roles_after(roles, prefix);
        if change_has_effect(before, c) {
            let eff = effective_changes(roles, changes);
            assert(eff.drop_last() =~= effective_changes(roles, prefix));
        } else {
            assert(change_roles(before, c) =~= before);
        }
    }
}

impl RoleChange {
    pub fn new(kind: RoleChangeKind, role_id: u64) -> (change: RoleChange)
        ensures
            change == (RoleChange { kind, role_id }),
    {
        RoleChange { kind, role_id }
    }

    /// Appends a change of `kind` for each role id, in order.
    pub fn extend_with_many(target: &mut Vec<RoleChange>, kind: RoleChangeKind, role_ids: &[u64])
        ensures
            final(target)@ == old(target)@ + changes_for(kind, role_ids@),
    {
        let ghost start = target@;
        let mut i: usize = 0;
        while i < role_ids.len()
            invariant
                i <= role_ids@.len(),
                target@ == start + changes_for(kind, role_ids@.take(i as int)),
            decreases role_ids@.len() - i,
        {
            target.push(RoleChange::new(kind, role_ids[i]));
            i = i + 1;
            assert(changes_for(kind, role_ids@.take(i as int)) =~= changes_for(
                kind,
                role_ids@.take(i - 1),
            ).push(RoleChange { kind, role_id: role_ids@[i - 1] }));
        }
        assert(role_ids@.take(i as int) =~= role_ids@);
    }

    pub fn is_assign(&self) -> (assign: bool)
        ensures
            assign == (self.kind == RoleChangeKind::Assign),
    {
        matches!(self.kind, RoleChangeKind::Assign)
    }

    pub fn is_remove(&self) -> (remove: bool)
        ensures
            remove == (self.kind == RoleChangeKind::Remove),
    {
        matches!(self.kind, RoleChangeKind::Remove)
    }

    /// Applies `role_changes` in order to the member's `roles`, keeps in `role_changes`
    /// only those that altered the roles, and gives back the new roles, or `None` when
    /// no change altered them.
    pub fn apply_changes(role_changes: &mut Vec<RoleChange>, roles: &[u64]) -> (new_roles: Option<Vec<u64>>)
        ensures
            final(role_changes)@ == effective_changes(roles@.to_set(), old(role_changes)@),
            new_roles is None <==> final(role_changes)@.len() == 0,
            new_roles matches Some(v) ==> v@.to_set() == roles_after(roles@.to_set(), old(role_changes)@)
                && v@.no_duplicates(),
    {
        let ghost initial = roles@.to_set();
        let mut set = role_set_new();
        let mut i: usize = 0;
        while i < roles.len()
            invariant
                i <= roles@.len(),
                role_set_contents(set) == roles@.take(i as int).to_set(),
            decreases roles@.len() - i,
        {
            role_set_insert(&mut set, roles[i]);
            proof {
                roles@.take(i as int).lemma_push_to_set_commute(roles@[i as int]);
                assert(roles@.take(i + 1) =~= roles@.take(i as int).push(roles@[i as int]));
            }
            i = i + 1;
        }
        assert(roles@.take(i as int) =~= roles@);
        let ghost changes = role_changes@;
        let mut kept: Vec<RoleChange> = Vec::new();
        let mut j: usize = 0;
        while j < role_changes.len()
            invariant
                role_changes@ == changes,
                j <= changes.len(),
                role_set_contents(set) == roles_after(initial, changes.take(j as int)),
                kept@ == effective_changes(initial, changes.take(j as int)),
            decreases changes.len() - j,
        {
            let change = role_changes[j];
            let effective = match change.kind {
                RoleChangeKind::Assign => role_set_insert(&mut set, change.role_id),
                RoleChangeKind::Remove => role_set_remove(&mut set, change.role_id).is_some(),
            };
            if effective {
                kept.push(change);
            }
            proof {
                assert(changes.take(j + 1).drop_last() =~= changes.take(j as int));
                assert(changes.take(j + 1).last() == change);
            }
            j = j + 1;
        }
        assert(changes.take(j as int) =~= changes);
        *role_changes = kept;
        if role_changes.len() == 0 {
            None
        } else {
            Some(role_set_into_vec(set))
        }
    }
}

} // verus!
