//! A sync operation: brings a member's Discord roles in line with the server's member
//! links and the member's Roblox account. The operation waits on Discord, the database
//! and Roblox between its decisions; `SyncMachine` holds those decisions, and whoever
//! drives it performs each action and hands back what came of it.
use vstd::prelude::*;
use crate::interaction::InteractionRef;
use crate::member_link::{
    collect_role_changes, link_changes, links_need_group_standing, links_need_groups,
    links_only_roles, GroupStanding, MemberLinkModel,
};
use crate::roles::{conflict_free, effective_changes, lemma_apply_twice_settles, roles_after, RoleChange};

verus! {

/// A request to sync one member of one server.
pub struct SyncOperation {
    pub guild_id: u64,
    pub user_id: u64,
    /// The interaction that asked for the sync, and whether it has been acknowledged.
    pub interaction: Option<(InteractionRef, bool)>,
}

impl SyncOperation {
    /// A sync of the member who made the interaction, in the server it came from.
    pub fn from_interaction(interaction: InteractionRef, is_acknowledged: bool) -> (operation: SyncOperation)
        requires
            interaction.guild_id is Some,
            interaction.user_id is Some,
        ensures
            operation.guild_id == interaction.guild_id->0,
            operation.user_id == interaction.user_id->0,
            operation.interaction == Some((interaction, is_acknowledged)),
    {
        let guild_id = interaction.guild_id.unwrap();
        let user_id = interaction.user_id.unwrap();
        SyncOperation { guild_id, user_id, interaction: Some((interaction, is_acknowledged)) }
    }
}

/// How a sync operation ended.
pub enum SyncOperationResult {
    Success { profile_changed: bool, role_changes: Vec<RoleChange> },
    Cancelled,
}

/// Where a sync operation stands: what it waits for.
#[derive(Clone, Copy, Debug, PartialEq, Eq, Structural)]
pub enum SyncStage {
    Start,
    AwaitLinkedAccounts,
    AwaitPrompt,
    AwaitRobloxAccount,
    AwaitDefer,
    AwaitMemberLinks,
    AwaitGroupStanding,
    AwaitMemberRoles,
    AwaitRoleUpdate,
    AwaitReport,
    Finished,
}

/// What came of the last action.
pub enum SyncEvent {
    Begin,
    /// The ids of the Roblox accounts linked to the member.
    LinkedAccounts { link_ids: Vec<u64> },
    /// The Roblox user id of the first linked account.
    RobloxAccount { roblox_id: u64 },
    /// A response to the interaction was sent.
    ResponseSent,
    /// The server's member links that are known, in the order of their ids.
    MemberLinks { links: Vec<MemberLinkModel> },
    /// The member's Roblox group memberships.
    GroupStanding { standing: GroupStanding },
    /// The member's current Discord roles.
    MemberRoles { roles: Vec<u64> },
    /// The member's roles were replaced.
    MemberUpdated,
}

/// What the driver is to do next.
pub enum SyncAction {
    FetchLinkedAccounts { user_id: u64 },
    /// Ask the member to connect a Roblox account, answering the interaction.
    PromptAccountConnection { guild_id: u64 },
    FetchRobloxAccount { link_id: u64 },
    /// Acknowledge the interaction with a deferred, ephemeral response.
    DeferResponse,
    FetchMemberLinks { guild_id: u64 },
    FetchGroupStanding { roblox_id: u64 },
    FetchMemberRoles { guild_id: u64, user_id: u64 },
    UpdateMemberRoles { guild_id: u64, user_id: u64, roles: Vec<u64> },
    /// Answer the interaction with the result that the machine holds.
    ReportResult,
    Finish { result: SyncOperationResult },
}

/// The decisions of one sync operation, and what it has gathered so far.
pub struct SyncMachine {
    pub operation: SyncOperation,
    pub stage: SyncStage,
    pub roblox_id: u64,
    pub links: Vec<MemberLinkModel>,
    pub role_changes: Vec<RoleChange>,
    pub result: Option<SyncOperationResult>,
}

/// Whether the event is one the machine waits for in this stage.
pub open spec fn event_fits(stage: SyncStage, event: SyncEvent) -> bool {
    match event {
        SyncEvent::Begin => stage == SyncStage::Start,
        SyncEvent::LinkedAccounts { .. } => stage == SyncStage::AwaitLinkedAccounts,
        SyncEvent::RobloxAccount { .. } => stage == SyncStage::AwaitRobloxAccount,
        SyncEvent::ResponseSent => stage == SyncStage::AwaitPrompt || stage == SyncStage::AwaitDefer
            || stage == SyncStage::AwaitReport,
        SyncEvent::MemberLinks { .. } => stage == SyncStage::AwaitMemberLinks,
        SyncEvent::GroupStanding { .. } => stage == SyncStage::AwaitGroupStanding,
        SyncEvent::MemberRoles { .. } => stage == SyncStage::AwaitMemberRoles,
        SyncEvent::MemberUpdated => stage == SyncStage::AwaitRoleUpdate,
    }
}

/// Whether a result is a success with the given flag and role changes.
pub open spec fn is_success(result: SyncOperationResult, changed: bool, changes: Seq<RoleChange>) -> bool {
    result matches SyncOperationResult::Success { profile_changed, role_changes }
        && profile_changed == changed && role_changes@ == changes
}

/// The operation ends with a success: reported first when an interaction asked for it.
pub open spec fn ends_with(pre: SyncMachine, post: SyncMachine, action: SyncAction, changed: bool, changes: Seq<RoleChange>) -> bool {
    if pre.operation.interaction is Some {
        &&& post.stage == SyncStage::AwaitReport
        &&& action is ReportResult
        &&& post.result matches Some(r) && is_success(r, changed, changes)
    } else {
        &&& post.stage == SyncStage::Finished
        &&& action matches SyncAction::Finish { result } && is_success(result, changed, changes)
        &&& post.result is None
    }
}

/// Once the role changes are known: with none, the operation ends unchanged; otherwise
/// the member's current roles are fetched.
pub open spec fn after_changes(pre: SyncMachine, post: SyncMachine, action: SyncAction, changes: Seq<RoleChange>) -> bool {
    if changes.len() == 0 {
        ends_with(pre, post, action, false, changes)
    } else {
        &&& post.stage == SyncStage::AwaitMemberRoles
        &&& post.role_changes@ == changes
        &&& action == (SyncAction::FetchMemberRoles {
            guild_id: pre.operation.guild_id,
            user_id: pre.operation.user_id,
        })
    }
}

/// The decision the machine takes on an event, from the state before to the state after.
pub open spec fn step_spec(pre: SyncMachine, event: SyncEvent, post: SyncMachine, action: SyncAction) -> bool {
    &&& post.operation == pre.operation
    &&& !(event is RobloxAccount) ==> post.roblox_id == pre.roblox_id
    &&& !(event is MemberLinks) ==> post.links == pre.links
    &&& match event {
        SyncEvent::Begin => {
            &&& post.stage == SyncStage::AwaitLinkedAccounts
            &&& action == (SyncAction::FetchLinkedAccounts { user_id: pre.operation.user_id })
        },
        SyncEvent::LinkedAccounts { link_ids } => if link_ids@.len() == 0 {
            &&& post.stage == SyncStage::AwaitPrompt
            &&& action == (SyncAction::PromptAccountConnection { guild_id: pre.operation.guild_id })
        } else {
            &&& post.stage == SyncStage::AwaitRobloxAccount
            &&& action == (SyncAction::FetchRobloxAccount { link_id: link_ids@[0] })
        },
        SyncEvent::RobloxAccount { roblox_id } => {
            &&& post.roblox_id == roblox_id
            &&& if pre.operation.interaction matches Some((_, acknowledged)) && !acknowledged {
                post.stage == SyncStage::AwaitDefer && action is DeferResponse
            } else {
                post.stage == SyncStage::AwaitMemberLinks && action == (SyncAction::FetchMemberLinks {
                    guild_id: pre.operation.guild_id,
                })
            }
        },
        SyncEvent::ResponseSent => if pre.stage == SyncStage::AwaitPrompt {
            &&& post.stage == SyncStage::Finished
            &&& action matches SyncAction::Finish { result } && result is Cancelled
        } else if pre.stage == SyncStage::AwaitDefer {
            &&& post.stage == SyncStage::AwaitMemberLinks
            &&& action == (SyncAction::FetchMemberLinks { guild_id: pre.operation.guild_id })
        } else {
            &&& post.stage == SyncStage::Finished
            &&& post.result is None
            &&& action matches SyncAction::Finish { result } && Some(result) == pre.result
        },
        SyncEvent::MemberLinks { links } => {
            &&& post.links == links
            &&& post.roblox_id == pre.roblox_id
            &&& if links_need_groups(links@) {
                &&& post.stage == SyncStage::AwaitGroupStanding
                &&& action == (SyncAction::FetchGroupStanding { roblox_id: pre.roblox_id })
            } else {
                after_changes(pre, post, action, link_changes(links@, Seq::empty(), Seq::empty()))
            }
        },
        SyncEvent::GroupStanding { standing } => after_changes(
            pre,
            post,
            action,
            link_changes(pre.links@, standing.group_ids@, standing.group_roles@),
        ),
        SyncEvent::MemberRoles { roles } => {
            let effective = effective_changes(roles@.to_set(), pre.role_changes@);
            if effective.len() == 0 {
                ends_with(pre, post, action, false, effective)
            } else {
                &&& post.stage == SyncStage::AwaitRoleUpdate
                &&& post.role_changes@ == effective
                &&& action matches SyncAction::UpdateMemberRoles { guild_id, user_id, roles: new_roles }
                    && guild_id == pre.operation.guild_id && user_id == pre.operation.user_id
                    && new_roles@.to_set() == roles_after(roles@.to_set(), pre.role_changes@)
                    && new_roles@.no_duplicates()
            }
        },
        SyncEvent::MemberUpdated => ends_with(pre, post, action, true, pre.role_changes@),
    }
}

/// The position of a stage in the order an operation passes through them.
pub open spec fn stage_rank(stage: SyncStage) -> nat {
    match stage {
        SyncStage::Start => 0,
        SyncStage::AwaitLinkedAccounts => 1,
        SyncStage::AwaitPrompt => 2,
        SyncStage::AwaitRobloxAccount => 3,
        SyncStage::AwaitDefer => 4,
        SyncStage::AwaitMemberLinks => 5,
        SyncStage::AwaitGroupStanding => 6,
        SyncStage::AwaitMemberRoles => 7,
        SyncStage::AwaitRoleUpdate => 8,
        SyncStage::AwaitReport => 9,
        SyncStage::Finished => 10,
    }
}

/// Every decision moves the operation forward, so it finishes within ten steps; and the
/// machine hands back its result exactly when it reaches the end.
pub proof fn lemma_step_progresses(pre: SyncMachine, event: SyncEvent, post: SyncMachine, action: SyncAction)
    requires
        event_fits(pre.stage, event),
        step_spec(pre, event, post, action),
    ensures
        stage_rank(post.stage) > stage_rank(pre.stage),
        (action is Finish) <==> post.stage == SyncStage::Finished,
{
}

/// When a sync replaces a member's roles with changes that do not conflict, syncing the
/// same changes again against the new roles alters nothing.
pub proof fn lemma_resync_settles(pre: SyncMachine, roles: Vec<u64>, post: SyncMachine, action: SyncAction)
    requires
        step_spec(pre, SyncEvent::MemberRoles { roles }, post, action),
        conflict_free(pre.role_changes@),
        action is UpdateMemberRoles,
    ensures
        action matches SyncAction::UpdateMemberRoles { roles: new_roles, .. } && effective_changes(
            new_roles@.to_set(),
            pre.role_changes@,
        ).len() == 0,
{
    lemma_apply_twice_settles(roles@.to_set(), pre.role_changes@);
}

impl SyncMachine {
    /// The machine holds a result exactly while it waits for the result to be reported,
    /// and the links it judges have only role effects.
    pub open spec fn wf(&self) -> bool {
        &&& (self.stage == SyncStage::AwaitReport) == (self.result is Some)
        &&& links_only_roles(self.links@)
    }

    /// A machine at the start of `operation`.
    pub fn new(operation: SyncOperation) -> (machine: SyncMachine)
        ensures
            machine.wf(),
            machine.stage == SyncStage::Start,
            machine.operation == operation,
            machine.roblox_id == 0,
            machine.links@.len() == 0,
            machine.role_changes@.len() == 0,
            machine.result is None,
    {
        SyncMachine {
            operation,
            stage: SyncStage::Start,
            roblox_id: 0,
            links: Vec::new(),
            role_changes: Vec::new(),
            result: None,
        }
    }

    fn end_with(&mut self, changed: bool) -> (action: SyncAction)
        ensures
            final(self).operation == old(self).operation,
            final(self).roblox_id == old(self).roblox_id,
            final(self).links == old(self).links,
            ends_with(*old(self), *final(self), action, changed, old(self).role_changes@),
    {
        let mut role_changes: Vec<RoleChange> = Vec::new();
        std::mem::swap(&mut role_changes, &mut self.role_changes);
        let result = SyncOperationResult::Success { profile_changed: changed, role_changes };
        if self.operation.interaction.is_some() {
            self.result = Some(result);
            self.stage = SyncStage::AwaitReport;
            SyncAction::ReportResult
        } else {
            self.result = None;
            self.stage = SyncStage::Finished;
            SyncAction::Finish { result }
        }
    }

    fn decide_changes(&mut self, changes: Vec<RoleChange>) -> (action: SyncAction)
        ensures
            final(self).operation == old(self).operation,
            final(self).roblox_id == old(self).roblox_id,
            final(self).links == old(self).links,
            after_changes(*old(self), *final(self), action, changes@),
            changes@.len() > 0 ==> final(self).result == old(self).result,
    {
        if changes.len() == 0 {
            self.role_changes = changes;
            self.end_with(false)
        } else {
            self.role_changes = changes;
            self.stage = SyncStage::AwaitMemberRoles;
            SyncAction::FetchMemberRoles {
                guild_id: self.operation.guild_id,
                user_id: self.operation.user_id,
            }
        }
    }

    /// Takes the decision that follows `event`.
    pub fn step(&mut self, event: SyncEvent) -> (action: SyncAction)
        requires
            old(self).wf(),
            event_fits(old(self).stage, event),
            event matches SyncEvent::LinkedAccounts { link_ids } && link_ids@.len() == 0
                ==> old(self).operation.interaction is Some,
            event matches SyncEvent::MemberLinks { links } ==> links_only_roles(links@),
        ensures
            final(self).wf(),
            step_spec(*old(self), event, *final(self), action),
    {
        match event {
            SyncEvent::Begin => {
                self.stage = SyncStage::AwaitLinkedAccounts;
                SyncAction::FetchLinkedAccounts { user_id: self.operation.user_id }
            },
            SyncEvent::LinkedAccounts { link_ids } => {
                if link_ids.len() == 0 {
                    self.stage = SyncStage::AwaitPrompt;
                    SyncAction::PromptAccountConnection { guild_id: self.operation.guild_id }
                } else {
                    self.stage = SyncStage::AwaitRobloxAccount;
                    SyncAction::FetchRobloxAccount { link_id: link_ids[0] }
                }
            },
            SyncEvent::RobloxAccount { roblox_id } => {
                self.roblox_id = roblox_id;
                let defer = match &self.operation.interaction {
                    Some((_, acknowledged)) => !*acknowledged,
                    None => false,
                };
                if defer {
                    self.stage = SyncStage::AwaitDefer;
                    SyncAction::DeferResponse
                } else {
                    self.stage = SyncStage::AwaitMemberLinks;
                    SyncAction::FetchMemberLinks { guild_id: self.operation.guild_id }
                }
            },
            SyncEvent::ResponseSent => {
                if self.stage == SyncStage::AwaitPrompt {
                    self.stage = SyncStage::Finished;
                    SyncAction::Finish { result: SyncOperationResult::Cancelled }
                } else if self.stage == SyncStage::AwaitDefer {
                    self.stage = SyncStage::AwaitMemberLinks;
                    SyncAction::FetchMemberLinks { guild_id: self.operation.guild_id }
                } else {
                    let mut result: Option<SyncOperationResult> = None;
                    std::mem::swap(&mut result, &mut self.result);
                    self.stage = SyncStage::Finished;
                    match result {
                        Some(result) => SyncAction::Finish { result },
                        None => SyncAction::Finish { result: SyncOperationResult::Cancelled },
                    }
                }
            },
            SyncEvent::MemberLinks { links } => {
                if links_need_group_standing(&links) {
                    self.links = links;
                    self.stage = SyncStage::AwaitGroupStanding;
                    SyncAction::FetchGroupStanding { roblox_id: self.roblox_id }
                } else {
                    let standing = GroupStanding { group_ids: Vec::new(), group_roles: Vec::new() };
                    let changes = collect_role_changes(&links, &standing);
                    proof {
                        assert(standing.group_ids@ =~= Seq::<u64>::empty());
                        assert(standing.group_roles@ =~= Seq::<(u64, u64)>::empty());
                    }
                    self.links = links;
                    self.decide_changes(changes)
                }
            },
            SyncEvent::GroupStanding { standing } => {
                let changes = collect_role_changes(&self.links, &standing);
                self.decide_changes(changes)
            },
            SyncEvent::MemberRoles { roles } => {
                let new_roles = RoleChange::apply_changes(&mut self.role_changes, roles.as_slice());
                match new_roles {
                    Some(new_roles) => {
                        self.stage = SyncStage::AwaitRoleUpdate;
                        SyncAction::UpdateMemberRoles {
                            guild_id: self.operation.guild_id,
                            user_id: self.operation.user_id,
                            roles: new_roles,
                        }
                    },
                    None => self.end_with(false),
                }
            },
            SyncEvent::MemberUpdated => self.end_with(true),
        }
    }
}

} // verus!
