use ribbon::interaction::{InteractionKind, InteractionRef};
use ribbon::member_link::{
    collect_role_changes, reached_role_groups, Connector, ConnectorsModel, CriteriaItem, CriteriaModel, GroupStanding,
    MemberLinkModel,
};
use ribbon::roles::{RoleChange, RoleChangeKind};
use ribbon::sync::{SyncAction, SyncEvent, SyncMachine, SyncOperation, SyncOperationResult, SyncStage};

fn interaction() -> InteractionRef {
    InteractionRef {
        id: 100,
        kind: InteractionKind::ApplicationCommand,
        token: "tok".to_string(),
        guild_id: Some(7),
        user_id: Some(8),
    }
}

fn link(id: u64, criteria: Vec<CriteriaItem>, roles: Vec<u64>) -> MemberLinkModel {
    MemberLinkModel {
        connectors: ConnectorsModel { items: vec![Connector::Roles { target_role_ids: roles }] },
        criteria: CriteriaModel { items: criteria },
        display_name: format!("link {id}"),
        id,
    }
}

fn standing() -> GroupStanding {
    GroupStanding { group_ids: vec![35, 9], group_roles: vec![(35, 812), (9, 1)] }
}

#[test]
fn criteria_checks() {
    let s = standing();
    let met = CriteriaModel { items: vec![CriteriaItem::GroupMembership { group_id: 35 }, CriteriaItem::ValidAccount] };
    assert!(met.is_met(&s));
    let role = CriteriaModel { items: vec![CriteriaItem::GroupMembershipRole { group_id: 35, role_id: 812 }] };
    assert!(role.is_met(&s));
    let wrong_role = CriteriaModel { items: vec![CriteriaItem::GroupMembershipRole { group_id: 35, role_id: 1 }] };
    assert!(!wrong_role.is_met(&s));
    let absent = CriteriaModel { items: vec![CriteriaItem::ValidAccount, CriteriaItem::GroupMembership { group_id: 4 }] };
    assert!(!absent.is_met(&s));
    assert!(CriteriaModel::default().is_met(&s));
    assert!(!CriteriaModel::default().needs_groups());
    assert!(absent.needs_groups());
}

#[test]
fn role_changes_follow_criteria() {
    let links = vec![
        link(1, vec![CriteriaItem::GroupMembership { group_id: 35 }], vec![500, 501]),
        link(2, vec![CriteriaItem::GroupMembership { group_id: 4 }], vec![600]),
    ];
    let changes = collect_role_changes(&links, &standing());
    assert_eq!(
        changes,
        vec![
            RoleChange::new(RoleChangeKind::Assign, 500),
            RoleChange::new(RoleChangeKind::Assign, 501),
            RoleChange::new(RoleChangeKind::Remove, 600),
        ]
    );
}

#[test]
fn sync_without_linked_account_prompts_and_cancels() {
    let operation = SyncOperation::from_interaction(interaction(), false);
    assert_eq!(operation.guild_id, 7);
    assert_eq!(operation.user_id, 8);
    let mut machine = SyncMachine::new(operation);
    assert!(matches!(machine.step(SyncEvent::Begin), SyncAction::FetchLinkedAccounts { user_id: 8 }));
    assert!(matches!(
        machine.step(SyncEvent::LinkedAccounts { link_ids: vec![] }),
        SyncAction::PromptAccountConnection { guild_id: 7 }
    ));
    assert!(matches!(
        machine.step(SyncEvent::ResponseSent),
        SyncAction::Finish { result: SyncOperationResult::Cancelled }
    ));
    assert_eq!(machine.stage, SyncStage::Finished);
}

#[test]
fn sync_full_run_updates_roles() {
    let mut machine = SyncMachine::new(SyncOperation::from_interaction(interaction(), false));
    machine.step(SyncEvent::Begin);
    assert!(matches!(
        machine.step(SyncEvent::LinkedAccounts { link_ids: vec![55, 56] }),
        SyncAction::FetchRobloxAccount { link_id: 55 }
    ));
    assert!(matches!(machine.step(SyncEvent::RobloxAccount { roblox_id: 999 }), SyncAction::DeferResponse));
    assert!(matches!(machine.step(SyncEvent::ResponseSent), SyncAction::FetchMemberLinks { guild_id: 7 }));
    assert_eq!(machine.roblox_id, 999);
    let links = vec![
        link(1, vec![CriteriaItem::GroupMembershipRole { group_id: 35, role_id: 812 }], vec![500]),
        link(2, vec![CriteriaItem::GroupMembership { group_id: 4 }], vec![600]),
    ];
    assert!(matches!(
        machine.step(SyncEvent::MemberLinks { links }),
        SyncAction::FetchGroupStanding { roblox_id: 999 }
    ));
    assert!(matches!(
        machine.step(SyncEvent::GroupStanding { standing: standing() }),
        SyncAction::FetchMemberRoles { guild_id: 7, user_id: 8 }
    ));
    match machine.step(SyncEvent::MemberRoles { roles: vec![600, 700] }) {
        SyncAction::UpdateMemberRoles { guild_id, user_id, mut roles } => {
            roles.sort();
            assert_eq!((guild_id, user_id, roles), (7, 8, vec![500, 700]));
        },
        _ => panic!("expected a role update"),
    }
    assert!(matches!(machine.step(SyncEvent::MemberUpdated), SyncAction::ReportResult));
    match &machine.result {
        Some(SyncOperationResult::Success { profile_changed, role_changes }) => {
            assert!(*profile_changed);
            assert_eq!(
                role_changes,
                &vec![RoleChange::new(RoleChangeKind::Assign, 500), RoleChange::new(RoleChangeKind::Remove, 600)]
            );
        },
        _ => panic!("expected a success"),
    }
    assert!(matches!(
        machine.step(SyncEvent::ResponseSent),
        SyncAction::Finish { result: SyncOperationResult::Success { profile_changed: true, .. } }
    ));
    assert_eq!(machine.stage, SyncStage::Finished);
    assert!(machine.result.is_none());
}

#[test]
fn sync_without_interaction_or_changes_finishes_unchanged() {
    let operation = SyncOperation { guild_id: 1, user_id: 2, interaction: None };
    let mut machine = SyncMachine::new(operation);
    machine.step(SyncEvent::Begin);
    machine.step(SyncEvent::LinkedAccounts { link_ids: vec![3] });
    assert!(matches!(machine.step(SyncEvent::RobloxAccount { roblox_id: 4 }), SyncAction::FetchMemberLinks { guild_id: 1 }));
    match machine.step(SyncEvent::MemberLinks { links: vec![] }) {
        SyncAction::Finish { result: SyncOperationResult::Success { profile_changed, role_changes } } => {
            assert!(!profile_changed);
            assert!(role_changes.is_empty());
        },
        _ => panic!("expected to finish"),
    }
}

#[test]
fn sync_with_roles_already_in_place() {
    let operation = SyncOperation::from_interaction(interaction(), true);
    let mut machine = SyncMachine::new(operation);
    machine.step(SyncEvent::Begin);
    machine.step(SyncEvent::LinkedAccounts { link_ids: vec![3] });
    assert!(matches!(machine.step(SyncEvent::RobloxAccount { roblox_id: 4 }), SyncAction::FetchMemberLinks { guild_id: 7 }));
    let links = vec![link(1, vec![CriteriaItem::ValidAccount], vec![500])];
    assert!(matches!(
        machine.step(SyncEvent::MemberLinks { links }),
        SyncAction::FetchMemberRoles { guild_id: 7, user_id: 8 }
    ));
    assert!(matches!(machine.step(SyncEvent::MemberRoles { roles: vec![500] }), SyncAction::ReportResult));
    match machine.step(SyncEvent::ResponseSent) {
        SyncAction::Finish { result: SyncOperationResult::Success { profile_changed, role_changes } } => {
            assert!(!profile_changed);
            assert!(role_changes.is_empty());
        },
        _ => panic!("expected to finish"),
    }
}

#[test]
fn new_machine_starts_empty() {
    let machine = SyncMachine::new(SyncOperation::from_interaction(interaction(), true));
    assert_eq!(machine.stage, SyncStage::Start);
    assert_eq!(machine.roblox_id, 0);
    assert!(machine.links.is_empty());
    assert!(machine.role_changes.is_empty());
    assert!(machine.result.is_none());
}

#[test]
fn role_groups_read_up_to_the_first_failing_condition() {
    let links = vec![
        link(
            1,
            vec![
                CriteriaItem::GroupMembershipRole { group_id: 35, role_id: 812 },
                CriteriaItem::GroupMembership { group_id: 4 },
                CriteriaItem::GroupMembershipRole { group_id: 9, role_id: 1 },
            ],
            vec![500],
        ),
        link(
            2,
            vec![
                CriteriaItem::ValidAccount,
                CriteriaItem::GroupMembershipRole { group_id: 9, role_id: 2 },
                CriteriaItem::GroupMembershipRole { group_id: 35, role_id: 812 },
            ],
            vec![600],
        ),
        link(3, vec![CriteriaItem::GroupMembershipRole { group_id: 35, role_id: 812 }], vec![700]),
    ];
    assert_eq!(reached_role_groups(&links, &standing()), vec![35, 9, 35]);
    assert_eq!(reached_role_groups(&vec![], &standing()), Vec::<u64>::new());
}
