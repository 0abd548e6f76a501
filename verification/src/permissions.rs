//! The permissions that the support system registers, and the checks
//! built on them.
use vstd::prelude::*;

use crate::text::{chars_of, starts_with, starts_with_chars};

verus! {

/// A permission of the `tickets` groups.
#[derive(Clone, Copy, PartialEq, Eq, Structural, Debug)]
pub enum TicketPermission {
    ViewOwn,
    Create,
    ReplyOwn,
    ViewAll,
    ReplyAll,
    ChangeStatus,
    Assign,
    AddInternalNotes,
    Delete,
    ManageCategories,
    ManageSettings,
}

/// The permission's key within the `tickets` group.
pub open spec fn permission_key(p: TicketPermission) -> Seq<char> {
    match p {
        TicketPermission::ViewOwn => "view-own"@,
        TicketPermission::Create => "create"@,
        TicketPermission::ReplyOwn => "reply-own"@,
        TicketPermission::ViewAll => "view-all"@,
        TicketPermission::ReplyAll => "reply-all"@,
        TicketPermission::ChangeStatus => "change-status"@,
        TicketPermission::Assign => "assign"@,
        TicketPermission::AddInternalNotes => "add-internal-notes"@,
        TicketPermission::Delete => "delete"@,
        TicketPermission::ManageCategories => "manage-categories"@,
        TicketPermission::ManageSettings => "manage-settings"@,
    }
}

/// The permission's full name, as checked by the routes: `tickets.<key>`.
pub open spec fn permission_name(p: TicketPermission) -> Seq<char> {
    "tickets."@ + permission_key(p)
}

/// Client permissions are the own-ticket ones; the rest are staff permissions.
pub open spec fn permission_is_admin(p: TicketPermission) -> bool {
    !(p == TicketPermission::ViewOwn || p == TicketPermission::Create || p
        == TicketPermission::ReplyOwn)
}

pub open spec fn permission_description(p: TicketPermission) -> Seq<char> {
    match p {
        TicketPermission::ViewOwn => "Allows viewing your own support tickets."@,
        TicketPermission::Create => "Allows creating new support tickets."@,
        TicketPermission::ReplyOwn => "Allows replying to and closing your own support tickets."@,
        TicketPermission::ViewAll => "Allows viewing all support tickets and queues."@,
        TicketPermission::ReplyAll => "Allows replying publicly to all support tickets."@,
        TicketPermission::ChangeStatus => "Allows changing ticket status, priority, and category."@,
        TicketPermission::Assign => "Allows assigning tickets to staff users."@,
        TicketPermission::AddInternalNotes => "Allows creating staff-only internal notes on tickets."@,
        TicketPermission::Delete => "Allows soft-deleting support tickets."@,
        TicketPermission::ManageCategories => "Allows creating, updating, and deleting support ticket categories."@,
        TicketPermission::ManageSettings => "Allows updating support ticket settings."@,
    }
}

impl TicketPermission {
    pub fn key(self) -> (r: &'static str)
        ensures
            r@ == permission_key(self),
    {
        match self {
            TicketPermission::ViewOwn => "view-own",
            TicketPermission::Create => "create",
            TicketPermission::ReplyOwn => "reply-own",
            TicketPermission::ViewAll => "view-all",
            TicketPermission::ReplyAll => "reply-all",
            TicketPermission::ChangeStatus => "change-status",
            TicketPermission::Assign => "assign",
            TicketPermission::AddInternalNotes => "add-internal-notes",
            TicketPermission::Delete => "delete",
            TicketPermission::ManageCategories => "manage-categories",
            TicketPermission::ManageSettings => "manage-settings",
        }
    }

    pub fn name(self) -> (r: &'static str)
        ensures
            r@ == permission_name(self),
    {
        proof {
            reveal_strlit("tickets.");
            reveal_strlit("tickets.view-own");
            reveal_strlit("view-own");
            reveal_strlit("tickets.create");
            reveal_strlit("create");
            reveal_strlit("tickets.reply-own");
            reveal_strlit("reply-own");
            reveal_strlit("tickets.view-all");
            reveal_strlit("view-all");
            reveal_strlit("tickets.reply-all");
            reveal_strlit("reply-all");
            reveal_strlit("tickets.change-status");
            reveal_strlit("change-status");
            reveal_strlit("tickets.assign");
            reveal_strlit("assign");
            reveal_strlit("tickets.add-internal-notes");
            reveal_strlit("add-internal-notes");
            reveal_strlit("tickets.delete");
            reveal_strlit("delete");
            reveal_strlit("tickets.manage-categories");
            reveal_strlit("manage-categories");
            reveal_strlit("tickets.manage-settings");
            reveal_strlit("manage-settings");
        }
        let r = match self {
            TicketPermission::ViewOwn => "tickets.view-own",
            TicketPermission::Create => "tickets.create",
            TicketPermission::ReplyOwn => "tickets.reply-own",
            TicketPermission::ViewAll => "tickets.view-all",
            TicketPermission::ReplyAll => "tickets.reply-all",
            TicketPermission::ChangeStatus => "tickets.change-status",
            TicketPermission::Assign => "tickets.assign",
            TicketPermission::AddInternalNotes => "tickets.add-internal-notes",
            TicketPermission::Delete => "tickets.delete",
            TicketPermission::ManageCategories => "tickets.manage-categories",
            TicketPermission::ManageSettings => "tickets.manage-settings",
        };
        assert(r@ =~= permission_name(self));
        r
    }

    pub fn is_admin(self) -> (r: bool)
        ensures
            r == permission_is_admin(self),
    {
        match self {
            TicketPermission::ViewOwn | TicketPermission::Create | TicketPermission::ReplyOwn => false,
            _ => true,
        }
    }

    pub fn description(self) -> (r: &'static str)
        ensures
            r@ == permission_description(self),
    {
        match self {
            TicketPermission::ViewOwn => "Allows viewing your own support tickets.",
            TicketPermission::Create => "Allows creating new support tickets.",
            TicketPermission::ReplyOwn => "Allows replying to and closing your own support tickets.",
            TicketPermission::ViewAll => "Allows viewing all support tickets and queues.",
            TicketPermission::ReplyAll => "Allows replying publicly to all support tickets.",
            TicketPermission::ChangeStatus => "Allows changing ticket status, priority, and category.",
            TicketPermission::Assign => "Allows assigning tickets to staff users.",
            TicketPermission::AddInternalNotes => "Allows creating staff-only internal notes on tickets.",
            TicketPermission::Delete => "Allows soft-deleting support tickets.",
            TicketPermission::ManageCategories => "Allows creating, updating, and deleting support ticket categories.",
            TicketPermission::ManageSettings => "Allows updating support ticket settings.",
        }
    }
}

/// The permissions of one group, in registration order.
pub open spec fn group_permissions(admin: bool) -> Seq<TicketPermission> {
    if admin {
        seq![
            TicketPermission::ViewAll,
            TicketPermission::ReplyAll,
            TicketPermission::ChangeStatus,
            TicketPermission::Assign,
            TicketPermission::AddInternalNotes,
            TicketPermission::Delete,
            TicketPermission::ManageCategories,
            TicketPermission::ManageSettings,
        ]
    } else {
        seq![TicketPermission::ViewOwn, TicketPermission::Create, TicketPermission::ReplyOwn]
    }
}

/// The permissions registered in the user group (`admin == false`) or the
/// admin group (`admin == true`), in order.
pub fn permission_group(admin: bool) -> (r: Vec<TicketPermission>)
    ensures
        r@ == group_permissions(admin),
{
    let mut r: Vec<TicketPermission> = Vec::new();
    if admin {
        r.push(TicketPermission::ViewAll);
        r.push(TicketPermission::ReplyAll);
        r.push(TicketPermission::ChangeStatus);
        r.push(TicketPermission::Assign);
        r.push(TicketPermission::AddInternalNotes);
        r.push(TicketPermission::Delete);
        r.push(TicketPermission::ManageCategories);
        r.push(TicketPermission::ManageSettings);
    } else {
        r.push(TicketPermission::ViewOwn);
        r.push(TicketPermission::Create);
        r.push(TicketPermission::ReplyOwn);
    }
    assert(r@ =~= group_permissions(admin));
    r
}

pub open spec fn group_description(admin: bool) -> Seq<char> {
    if admin {
        "Permissions that control the ability to manage support tickets for clients."@
    } else {
        "Permissions that control the ability to create and manage your own support tickets."@
    }
}

/// The description of the user group or the admin group.
pub fn permission_group_description(admin: bool) -> (r: &'static str)
    ensures
        r@ == group_description(admin),
{
    if admin {
        "Permissions that control the ability to manage support tickets for clients."
    } else {
        "Permissions that control the ability to create and manage your own support tickets."
    }
}

/// The permission that posting a staff message needs: internal notes and
/// public replies are granted separately.
pub fn staff_message_permission(is_internal: bool) -> (r: TicketPermission)
    ensures
        r == (if is_internal {
            TicketPermission::AddInternalNotes
        } else {
            TicketPermission::ReplyAll
        }),
{
    if is_internal {
        TicketPermission::AddInternalNotes
    } else {
        TicketPermission::ReplyAll
    }
}

/// The outcome of requiring any one of several permissions, given whether
/// each is granted: allowed when one is, and otherwise refused with the
/// refusal of the first one.
pub fn require_any_permission(granted: &Vec<bool>) -> (r: Result<(), usize>)
    requires
        granted.len() > 0,
    ensures
        r is Ok <==> exists|i: int| 0 <= i < granted.len() && granted@[i],
        r is Err ==> r == Err::<(), usize>(0),
{
    let mut i: usize = 0;
    while i < granted.len()
        invariant
            i <= granted.len(),
            forall|j: int| 0 <= j < i ==> !granted@[j],
        decreases granted.len() - i,
    {
        if granted[i] {
            return Ok(());
        }
        i = i + 1;
    }
    Err(0)
}

/// Whether a user may be assigned tickets: administrators, and users whose
/// role grants any `tickets.` admin permission.
/// The prefix shared by all support permissions.
pub open spec fn ticket_permission_prefix() -> Seq<char> {
    seq!['t', 'i', 'c', 'k', 'e', 't', 's', '.']
}

pub open spec fn support_staff(admin: bool, role_permissions: Option<Seq<Seq<char>>>) -> bool {
    ||| admin
    ||| role_permissions matches Some(ps) && grants_ticket_permission(ps)
}

/// Whether a list of permission names holds one of the support permissions.
pub open spec fn grants_ticket_permission(ps: Seq<Seq<char>>) -> bool {
    exists|i: int| 0 <= i < ps.len() && #[trigger] starts_with(ps[i], ticket_permission_prefix())
}

/// The texts of an optional list of strings.
pub open spec fn strings_view(v: Option<&Vec<String>>) -> Option<Seq<Seq<char>>> {
    match v {
        Some(v) => Some(v@.map_values(|s: String| s@)),
        None => None,
    }
}

/// Whether a user with these rights counts as support staff.
pub fn has_support_permissions(admin: bool, role_permissions: Option<&Vec<String>>) -> (r: bool)
    ensures
        r == support_staff(admin, strings_view(role_permissions)),
{
    if admin {
        return true;
    }
    match role_permissions {
        None => false,
        Some(perms) => {
            let ghost ps = perms@.map_values(|s: String| s@);
            assert(strings_view(role_permissions) == Some(ps));
            let prefix = chars_of("tickets.");
            proof {
                reveal_strlit("tickets.");
            }
            assert(prefix@ == ticket_permission_prefix());
            let mut i: usize = 0;
            while i < perms.len()
                invariant
                    i <= perms.len(),
                    ps == perms@.map_values(|s: String| s@),
                    prefix@ == ticket_permission_prefix(),
                    !admin,
                    strings_view(role_permissions) == Some(ps),
                    forall|j: int| 0 <= j < i ==> !starts_with(#[trigger] ps[j], ticket_permission_prefix()),
                decreases perms.len() - i,
            {
                let p = chars_of(perms[i].as_str());
                if starts_with_chars(&p, &prefix) {
                    assert(starts_with(ps[i as int], ticket_permission_prefix()));
                    assert(grants_ticket_permission(ps));

                    return true;
                }
                i = i + 1;
            }
            assert(!support_staff(admin, Some(ps)));
            false
        },
    }
}

} // verus!
