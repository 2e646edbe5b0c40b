use ribbon::roles::{RoleChange, RoleChangeKind};

fn assign(id: u64) -> RoleChange {
    RoleChange::new(RoleChangeKind::Assign, id)
}

fn remove(id: u64) -> RoleChange {
    RoleChange::new(RoleChangeKind::Remove, id)
}

fn sorted(mut v: Vec<u64>) -> Vec<u64> {
    v.sort();
    v
}

#[test]
fn apply_changes_keeps_only_effective_changes() {
    let mut changes = vec![assign(1), assign(5), remove(2), remove(9)];
    let new_roles = RoleChange::apply_changes(&mut changes, &[1, 2, 3]);
    assert_eq!(changes, vec![assign(5), remove(2)]);
    assert_eq!(sorted(new_roles.unwrap()), vec![1, 3, 5]);
}

#[test]
fn apply_changes_without_effect_gives_none() {
    let mut changes = vec![assign(1), remove(7)];
    assert_eq!(RoleChange::apply_changes(&mut changes, &[1, 2]), None);
    assert!(changes.is_empty());
}

#[test]
fn apply_changes_with_no_changes_gives_none() {
    let mut changes: Vec<RoleChange> = Vec::new();
    assert_eq!(RoleChange::apply_changes(&mut changes, &[4]), None);
}

#[test]
fn apply_changes_in_order_with_conflicts() {
    let mut changes = vec![assign(4), remove(4)];
    let new_roles = RoleChange::apply_changes(&mut changes, &[1]);
    assert_eq!(changes, vec![assign(4), remove(4)]);
    assert_eq!(sorted(new_roles.unwrap()), vec![1]);
}

#[test]
fn apply_changes_duplicate_roles_collapse() {
    let mut changes = vec![assign(3), assign(3)];
    let new_roles = RoleChange::apply_changes(&mut changes, &[2, 2]);
    assert_eq!(changes, vec![assign(3)]);
    assert_eq!(sorted(new_roles.unwrap()), vec![2, 3]);
}

#[test]
fn applying_twice_settles() {
    let mut changes = vec![assign(10), remove(11), assign(12)];
    let first = RoleChange::apply_changes(&mut changes, &[11, 12, 13]).unwrap();
    let mut again = vec![assign(10), remove(11), assign(12)];
    assert_eq!(RoleChange::apply_changes(&mut again, &first), None);
}

#[test]
fn extend_with_many_appends_in_order() {
    let mut changes = vec![assign(1)];
    RoleChange::extend_with_many(&mut changes, RoleChangeKind::Remove, &[7, 8]);
    assert_eq!(changes, vec![assign(1), remove(7), remove(8)]);
    assert!(changes[0].is_assign());
    assert!(!changes[0].is_remove());
    assert!(changes[1].is_remove());
}
