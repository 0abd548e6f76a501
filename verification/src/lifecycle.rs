//! The life of a ticket: creation, replies, notes, status changes,
//! assignment, re-prioritizing, re-categorizing and deletion.
//!
//! Each operation is a decision from the stored ticket and the request to
//! the ticket's next state, the audit event to record and the notification
//! to send; the storage layer performs what is decided.
use vstd::prelude::*;

use crate::discord_format::{humanize, humanize_chars};
use crate::discord_webhook::{lines_view, opt_view, DiscordWebhookEvent, DiscordWebhookEventKind};
use crate::error::{EmptyMessageContext, SupportError};
use crate::manager::{
    normalize_metadata, normalize_priority, normalize_status, normalized_metadata,
    normalized_priority, normalized_status,
};
use crate::models::{status_name, TicketActorType, TicketPriority, TicketStatus};
use crate::permissions::{has_support_permissions, strings_view, support_staff};
use crate::text::{
    chars_of, extend_chars, extend_str, replace_all, replace_str, string_of, trim, trim_chars,
};

verus! {

/// What the store keeps about a ticket that the workflow reads and writes.
/// Times are microseconds since the Unix epoch.
#[derive(Clone, Copy, Debug)]
pub struct TicketRecord {
    pub uuid: u128,
    pub creator_user_uuid: u128,
    pub status: TicketStatus,
    pub priority: Option<TicketPriority>,
    pub category_uuid: Option<u128>,
    pub assigned_user_uuid: Option<u128>,
    pub linked_server_uuid: Option<u128>,
    pub linked_server_deleted_at: Option<i64>,
    pub last_reply_at: Option<i64>,
    pub last_reply_by_type: Option<TicketActorType>,
    pub closed_at: Option<i64>,
    pub closed_by_user_uuid: Option<u128>,
    pub deleted_at: Option<i64>,
    pub updated: i64,
}

/// A ticket is consistent when it is closed exactly when it has a closing
/// time and a closing user, its last reply has both a time and an author
/// kind or neither, and a deleted ticket is closed.
pub open spec fn ticket_wf(t: TicketRecord) -> bool {
    &&& (t.status == TicketStatus::Closed) == t.closed_at.is_some()
    &&& t.closed_at.is_some() == t.closed_by_user_uuid.is_some()
    &&& t.last_reply_at.is_some() == t.last_reply_by_type.is_some()
    &&& t.deleted_at.is_some() ==> t.status == TicketStatus::Closed
}

/// Whether a client sees a ticket: it is not deleted and the client opened it.
pub open spec fn visible_to_client(t: TicketRecord, user_uuid: u128) -> bool {
    t.deleted_at.is_none() && t.creator_user_uuid == user_uuid
}

/// Whether a client sees a ticket (see `visible_to_client`).
pub fn client_can_see(ticket: &TicketRecord, user_uuid: u128) -> (r: bool)
    ensures
        r == visible_to_client(*ticket, user_uuid),
{
    ticket.deleted_at.is_none() && ticket.creator_user_uuid == user_uuid
}

/// Whether staff see a ticket: deleted tickets are shown to nobody.
pub open spec fn visible_to_staff(t: TicketRecord) -> bool {
    t.deleted_at.is_none()
}

pub fn staff_can_see(ticket: &TicketRecord) -> (r: bool)
    ensures
        r == visible_to_staff(*ticket),
{
    ticket.deleted_at.is_none()
}

/// A ticket a client sees is one staff see.
pub proof fn lemma_client_view_within_staff_view(t: TicketRecord, user_uuid: u128)
    ensures
        visible_to_client(t, user_uuid) ==> visible_to_staff(t),
        !visible_to_staff(t) ==> !visible_to_client(t, user_uuid),
{
}

/// The signed-in user on whose behalf an operation runs.
pub struct UserInfo {
    pub uuid: u128,
    pub username: String,
    pub name_first: String,
    pub name_last: String,
}

/// Who is recorded as performing an operation.
pub struct TicketActor {
    pub user_uuid: Option<u128>,
    pub username: String,
    pub display_name: String,
    pub actor_type: TicketActorType,
}

/// A person's display name: first and last name, space-separated, trimmed.
pub open spec fn display_name(first: Seq<char>, last: Seq<char>) -> Seq<char> {
    trim(first + seq![' '] + last)
}

/// The actor for a user acting in a role.
pub open spec fn actor_of(a: TicketActor, u: UserInfo, ty: TicketActorType) -> bool {
    &&& a.user_uuid == Some(u.uuid)
    &&& a.username@ == u.username@
    &&& a.display_name@ == display_name(u.name_first@, u.name_last@)
    &&& a.actor_type == ty
}

/// The display name of a user.
pub fn actor_display_name(name_first: &str, name_last: &str) -> (r: String)
    ensures
        r@ == display_name(name_first@, name_last@),
{
    let mut v = chars_of(name_first);
    v.push(' ');
    let l = chars_of(name_last);
    extend_chars(&mut v, &l);
    assert(v@ == name_first@ + seq![' '] + name_last@);
    let t = trim_chars(&v);
    string_of(&t)
}

impl TicketActor {
    /// The actor for a signed-in user acting as client or staff.
    pub fn for_user(user: &UserInfo, actor_type: TicketActorType) -> (r: TicketActor)
        ensures
            actor_of(r, *user, actor_type),
    {
        TicketActor {
            user_uuid: Some(user.uuid),
            username: user.username.clone(),
            display_name: actor_display_name(user.name_first.as_str(), user.name_last.as_str()),
            actor_type,
        }
    }
}

/// The audit trail entries of a ticket.
#[derive(Clone, Copy, PartialEq, Eq, Structural, Debug)]
pub enum AuditEventKind {
    TicketCreated,
    ReplyAdded,
    TicketReopenedByReply,
    TicketClosed,
    TicketReopened,
    InternalNoteAdded,
    StatusChanged,
    AssigneeChanged,
    PriorityChanged,
    CategoryChanged,
    TicketDeleted,
    LinkedServerDeleted,
}

pub open spec fn audit_event_name(k: AuditEventKind) -> Seq<char> {
    match k {
        AuditEventKind::TicketCreated => "ticket_created"@,
        AuditEventKind::ReplyAdded => "reply_added"@,
        AuditEventKind::TicketReopenedByReply => "ticket_reopened_by_reply"@,
        AuditEventKind::TicketClosed => "ticket_closed"@,
        AuditEventKind::TicketReopened => "ticket_reopened"@,
        AuditEventKind::InternalNoteAdded => "internal_note_added"@,
        AuditEventKind::StatusChanged => "status_changed"@,
        AuditEventKind::AssigneeChanged => "assignee_changed"@,
        AuditEventKind::PriorityChanged => "priority_changed"@,
        AuditEventKind::CategoryChanged => "category_changed"@,
        AuditEventKind::TicketDeleted => "ticket_deleted"@,
        AuditEventKind::LinkedServerDeleted => "linked_server_deleted"@,
    }
}

impl AuditEventKind {
    pub fn as_str(self) -> (r: &'static str)
        ensures
            r@ == audit_event_name(self),
    {
        match self {
            AuditEventKind::TicketCreated => "ticket_created",
            AuditEventKind::ReplyAdded => "reply_added",
            AuditEventKind::TicketReopenedByReply => "ticket_reopened_by_reply",
            AuditEventKind::TicketClosed => "ticket_closed",
            AuditEventKind::TicketReopened => "ticket_reopened",
            AuditEventKind::InternalNoteAdded => "internal_note_added",
            AuditEventKind::StatusChanged => "status_changed",
            AuditEventKind::AssigneeChanged => "assignee_changed",
            AuditEventKind::PriorityChanged => "priority_changed",
            AuditEventKind::CategoryChanged => "category_changed",
            AuditEventKind::TicketDeleted => "ticket_deleted",
            AuditEventKind::LinkedServerDeleted => "linked_server_deleted",
        }
    }
}

/// The details recorded with an audit event.
pub enum AuditPayload {
    Empty,
    Reply { is_internal: bool },
    Status { status: TicketStatus },
    Priority { priority: Option<TicketPriority> },
    Assignee { assigned_user_uuid: Option<u128>, assigned_username: Option<String> },
    Category { category_uuid: Option<u128>, category_name: Option<String> },
    Created { subject: String, category_uuid: Option<u128>, linked_server_uuid: Option<u128> },
    LinkedServer { linked_server_uuid: u128 },
}

/// What an operation decided: the ticket's next state, the audit event,
/// the message to store (for operations that post one) and the
/// notification to send (for operations that announce).
pub struct TicketChange {
    pub next: TicketRecord,
    pub audit_event: AuditEventKind,
    pub audit_payload: AuditPayload,
    pub message: Option<String>,
    pub webhook: Option<DiscordWebhookEvent>,
}

/// The notification carries this kind, the actor's names, the latest
/// message and these extra lines.
pub open spec fn event_is(
    e: DiscordWebhookEvent,
    kind: DiscordWebhookEventKind,
    a: TicketActor,
    latest: Option<Seq<char>>,
    extra: Seq<Seq<char>>,
) -> bool {
    &&& e.kind == kind
    &&& opt_view(e.actor_display_name) == Some(a.display_name@)
    &&& opt_view(e.actor_username) == Some(a.username@)
    &&& opt_view(e.latest_message_html) == latest
    &&& lines_view(e.extra_lines) == extra
}

fn event_for(
    kind: DiscordWebhookEventKind,
    actor: &TicketActor,
    latest: Option<String>,
    extra_lines: Vec<String>,
) -> (r: DiscordWebhookEvent)
    ensures
        event_is(r, kind, *actor, opt_view(latest), lines_view(extra_lines)),
{
    DiscordWebhookEvent {
        kind,
        actor_display_name: Some(actor.display_name.clone()),
        actor_username: Some(actor.username.clone()),
        latest_message_html: latest,
        extra_lines,
    }
}

/// A line `label` followed by `value`.
fn labeled_line(label: &str, value: &Vec<char>) -> (r: String)
    ensures
        r@ == label@ + value@,
{
    let mut v = chars_of(label);
    extend_chars(&mut v, value);
    string_of(&v)
}

// ---------------------------------------------------------------------
// Transitions of the stored ticket.

/// After a client's reply: waiting on staff, reopened, last reply by client.
pub open spec fn after_client_reply(t: TicketRecord, now: i64) -> TicketRecord {
    TicketRecord {
        status: TicketStatus::WaitingOnStaff,
        last_reply_at: Some(now),
        last_reply_by_type: Some(TicketActorType::Client),
        closed_at: None,
        closed_by_user_uuid: None,
        updated: now,
        ..t
    }
}

/// After a client closes the ticket.
pub open spec fn after_client_close(t: TicketRecord, user_uuid: u128, now: i64) -> TicketRecord {
    TicketRecord {
        status: TicketStatus::Closed,
        closed_at: Some(now),
        closed_by_user_uuid: Some(user_uuid),
        updated: now,
        ..t
    }
}

/// After a client reopens a closed ticket: waiting on staff again.
pub open spec fn after_client_reopen(t: TicketRecord, now: i64) -> TicketRecord {
    TicketRecord {
        status: TicketStatus::WaitingOnStaff,
        closed_at: None,
        closed_by_user_uuid: None,
        updated: now,
        ..t
    }
}

/// After a staff member's public reply: waiting on the client, reopened,
/// last reply by staff.
pub open spec fn after_staff_reply(t: TicketRecord, now: i64) -> TicketRecord {
    TicketRecord {
        status: TicketStatus::WaitingOnClient,
        last_reply_at: Some(now),
        last_reply_by_type: Some(TicketActorType::Staff),
        closed_at: None,
        closed_by_user_uuid: None,
        updated: now,
        ..t
    }
}

/// After an internal note: only the update time changes.
pub open spec fn after_internal_note(t: TicketRecord, now: i64) -> TicketRecord {
    TicketRecord { updated: now, ..t }
}

/// After staff set a status: closing records who and when, any other
/// status clears both.
pub open spec fn after_staff_status(
    t: TicketRecord,
    status: TicketStatus,
    user_uuid: u128,
    now: i64,
) -> TicketRecord {
    TicketRecord {
        status,
        closed_at: if status == TicketStatus::Closed {
            Some(now)
        } else {
            None
        },
        closed_by_user_uuid: if status == TicketStatus::Closed {
            Some(user_uuid)
        } else {
            None
        },
        updated: now,
        ..t
    }
}

pub open spec fn after_assign(t: TicketRecord, assignee: Option<u128>, now: i64) -> TicketRecord {
    TicketRecord { assigned_user_uuid: assignee, updated: now, ..t }
}

pub open spec fn after_priority(
    t: TicketRecord,
    priority: Option<TicketPriority>,
    now: i64,
) -> TicketRecord {
    TicketRecord { priority, updated: now, ..t }
}

pub open spec fn after_category(t: TicketRecord, category: Option<u128>, now: i64) -> TicketRecord {
    TicketRecord { category_uuid: category, updated: now, ..t }
}

/// After a soft delete: deleted and closed; an earlier closing time and
/// closing user are kept.
pub open spec fn after_soft_delete(t: TicketRecord, user_uuid: u128, now: i64) -> TicketRecord {
    TicketRecord {
        deleted_at: Some(now),
        status: TicketStatus::Closed,
        closed_at: if t.closed_at.is_some() {
            t.closed_at
        } else {
            Some(now)
        },
        closed_by_user_uuid: if t.closed_by_user_uuid.is_some() {
            t.closed_by_user_uuid
        } else {
            Some(user_uuid)
        },
        updated: now,
        ..t
    }
}

/// After the linked server was deleted.
pub open spec fn after_linked_server_deleted(t: TicketRecord, now: i64) -> TicketRecord {
    TicketRecord { linked_server_deleted_at: Some(now), updated: now, ..t }
}

/// Every operation keeps a consistent ticket consistent. Operations only
/// ever apply to tickets that are not deleted.
pub proof fn lemma_transitions_keep_wf(
    t: TicketRecord,
    status: TicketStatus,
    assignee: Option<u128>,
    priority: Option<TicketPriority>,
    category: Option<u128>,
    user_uuid: u128,
    now: i64,
)
    requires
        ticket_wf(t),
        t.deleted_at.is_none(),
    ensures
        ticket_wf(after_client_reply(t, now)),
        ticket_wf(after_client_close(t, user_uuid, now)),
        ticket_wf(after_client_reopen(t, now)),
        ticket_wf(after_staff_reply(t, now)),
        ticket_wf(after_internal_note(t, now)),
        ticket_wf(after_staff_status(t, status, user_uuid, now)),
        ticket_wf(after_assign(t, assignee, now)),
        ticket_wf(after_priority(t, priority, now)),
        ticket_wf(after_category(t, category, now)),
        ticket_wf(after_soft_delete(t, user_uuid, now)),
        ticket_wf(after_linked_server_deleted(t, now)),
{
}


// ---------------------------------------------------------------------
// Operations.

/// The notification carries this kind, the user's names as actor, the
/// latest message and these extra lines.
pub open spec fn event_by(
    e: DiscordWebhookEvent,
    kind: DiscordWebhookEventKind,
    u: UserInfo,
    latest: Option<Seq<char>>,
    extra: Seq<Seq<char>>,
) -> bool {
    &&& e.kind == kind
    &&& opt_view(e.actor_display_name) == Some(display_name(u.name_first@, u.name_last@))
    &&& opt_view(e.actor_username) == Some(u.username@)
    &&& opt_view(e.latest_message_html) == latest
    &&& lines_view(e.extra_lines) == extra
}

/// Why a client's reply is refused, if it is: the ticket must be the
/// client's and not deleted, closed tickets take replies only when the
/// settings allow it, and a reply needs text or attachments.
pub open spec fn client_reply_error(
    t: TicketRecord,
    user_uuid: u128,
    allow_reply_on_closed: bool,
    body: Seq<char>,
    attachment_count: nat,
) -> Option<SupportError> {
    if !visible_to_client(t, user_uuid) {
        Some(SupportError::TicketNotFound)
    } else if t.status == TicketStatus::Closed && !allow_reply_on_closed {
        Some(SupportError::ReplyOnClosed)
    } else if trim(body).len() == 0 && attachment_count == 0 {
        Some(SupportError::MessageEmpty { context: EmptyMessageContext::Reply })
    } else {
        None
    }
}

/// A client's reply stores the trimmed message, moves the ticket to
/// waiting-on-staff (reopening it), is recorded as a reopening reply when
/// the ticket was closed, and is announced with the message.
pub open spec fn client_reply_change(
    c: TicketChange,
    t: TicketRecord,
    u: UserInfo,
    body: Seq<char>,
    now: i64,
) -> bool {
    &&& c.next == after_client_reply(t, now)
    &&& c.audit_event == (if t.status == TicketStatus::Closed {
        AuditEventKind::TicketReopenedByReply
    } else {
        AuditEventKind::ReplyAdded
    })
    &&& c.audit_payload == AuditPayload::Reply { is_internal: false }
    &&& opt_view(c.message) == Some(trim(body))
    &&& c.webhook matches Some(e) && event_by(
        e,
        DiscordWebhookEventKind::ClientReply,
        u,
        Some(trim(body)),
        Seq::empty(),
    )
}

/// A client's reply to their ticket.
pub fn plan_client_reply(
    ticket: &TicketRecord,
    user: &UserInfo,
    allow_reply_on_closed: bool,
    body: &str,
    attachment_count: usize,
    now: i64,
) -> (r: Result<TicketChange, SupportError>)
    ensures
        match r {
            Ok(c) => client_reply_error(
                *ticket,
                user.uuid,
                allow_reply_on_closed,
                body@,
                attachment_count as nat,
            ) is None && client_reply_change(c, *ticket, *user, body@, now),
            Err(e) => client_reply_error(
                *ticket,
                user.uuid,
                allow_reply_on_closed,
                body@,
                attachment_count as nat,
            ) == Some(e),
        },
{
    if ticket.deleted_at.is_some() || ticket.creator_user_uuid != user.uuid {
        return Err(SupportError::TicketNotFound);
    }
    let was_closed = ticket.status == TicketStatus::Closed;
    if was_closed && !allow_reply_on_closed {
        return Err(SupportError::ReplyOnClosed);
    }
    let bv = chars_of(body);
    let message = trim_chars(&bv);
    if message.len() == 0 && attachment_count == 0 {
        return Err(SupportError::MessageEmpty { context: EmptyMessageContext::Reply });
    }
    let actor = TicketActor::for_user(user, TicketActorType::Client);
    let next = TicketRecord {
        status: TicketStatus::WaitingOnStaff,
        last_reply_at: Some(now),
        last_reply_by_type: Some(TicketActorType::Client),
        closed_at: None,
        closed_by_user_uuid: None,
        updated: now,
        ..*ticket
    };
    let no_lines: Vec<String> = Vec::new();
    assert(lines_view(no_lines) =~= Seq::<Seq<char>>::empty());
    let webhook = event_for(
        DiscordWebhookEventKind::ClientReply,
        &actor,
        Some(string_of(&message)),
        no_lines,
    );
    Ok(TicketChange {
        next,
        audit_event: if was_closed {
            AuditEventKind::TicketReopenedByReply
        } else {
            AuditEventKind::ReplyAdded
        },
        audit_payload: AuditPayload::Reply { is_internal: false },
        message: Some(string_of(&message)),
        webhook: Some(webhook),
    })
}

/// Why a client's status change is refused, if it is: the ticket must be
/// the client's, the status must be known, closing must be allowed by the
/// settings, only closed tickets can be reopened (as open or waiting on
/// staff), and no other status may be chosen by a client.
pub open spec fn client_status_error(
    t: TicketRecord,
    user_uuid: u128,
    allow_client_close: bool,
    status: Seq<char>,
) -> Option<SupportError> {
    if !visible_to_client(t, user_uuid) {
        Some(SupportError::TicketNotFound)
    } else {
        match normalized_status(status) {
            None => Some(SupportError::InvalidTicketStatus),
            Some(s) => if s == TicketStatus::Closed {
                if allow_client_close {
                    None
                } else {
                    Some(SupportError::ClientCloseDisabled)
                }
            } else if s == TicketStatus::Open || s == TicketStatus::WaitingOnStaff {
                if t.status == TicketStatus::Closed {
                    None
                } else {
                    Some(SupportError::OnlyClosedReopen)
                }
            } else {
                Some(SupportError::ClientStatusNotAllowed)
            },
        }
    }
}

/// The line showing a status with underscores as spaces.
pub open spec fn spaced_status(s: TicketStatus) -> Seq<char> {
    replace_all(status_name(s), "_"@, " "@)
}

/// A client closes (closing time and user recorded) or reopens (back to
/// waiting on staff); the change is announced with the old and new status.
pub open spec fn client_status_change(
    c: TicketChange,
    t: TicketRecord,
    u: UserInfo,
    status: Seq<char>,
    now: i64,
) -> bool {
    let closing = normalized_status(status) == Some(TicketStatus::Closed);
    &&& c.next == (if closing {
        after_client_close(t, u.uuid, now)
    } else {
        after_client_reopen(t, now)
    })
    &&& c.audit_event == (if closing {
        AuditEventKind::TicketClosed
    } else {
        AuditEventKind::TicketReopened
    })
    &&& c.audit_payload == AuditPayload::Empty
    &&& c.message is None
    &&& c.webhook matches Some(e) && event_by(
        e,
        DiscordWebhookEventKind::StatusChanged,
        u,
        None,
        seq![
            "**Previous Status:** "@ + spaced_status(t.status),
            "**New Status:** "@ + spaced_status(c.next.status),
        ],
    )
}

fn spaced_status_chars(s: TicketStatus) -> (r: Vec<char>)
    ensures
        r@ == spaced_status(s),
{
    proof {
        reveal_strlit("_");
    }
    let v = chars_of(s.as_str());
    replace_str(&v, "_", " ")
}

fn two_lines(a: String, b: String) -> (r: Vec<String>)
    ensures
        lines_view(r) == seq![a@, b@],
{
    let mut r: Vec<String> = Vec::new();
    r.push(a);
    r.push(b);
    assert(lines_view(r) =~= seq![a@, b@]);
    r
}

/// A client's request to close or reopen their ticket.
pub fn plan_client_status(
    ticket: &TicketRecord,
    user: &UserInfo,
    allow_client_close: bool,
    status: &str,
    now: i64,
) -> (r: Result<TicketChange, SupportError>)
    ensures
        match r {
            Ok(c) => client_status_error(*ticket, user.uuid, allow_client_close, status@) is None
                && client_status_change(c, *ticket, *user, status@, now),
            Err(e) => client_status_error(*ticket, user.uuid, allow_client_close, status@) == Some(
                e,
            ),
        },
{
    if ticket.deleted_at.is_some() || ticket.creator_user_uuid != user.uuid {
        return Err(SupportError::TicketNotFound);
    }
    let requested = match normalize_status(status) {
        Ok(s) => s,
        Err(e) => return Err(e),
    };
    let actor = TicketActor::for_user(user, TicketActorType::Client);
    let (next, event) = if requested == TicketStatus::Closed {
        if !allow_client_close {
            return Err(SupportError::ClientCloseDisabled);
        }
        (
            TicketRecord {
                status: TicketStatus::Closed,
                closed_at: Some(now),
                closed_by_user_uuid: Some(user.uuid),
                updated: now,
                ..*ticket
            },
            AuditEventKind::TicketClosed,
        )
    } else if requested == TicketStatus::Open || requested == TicketStatus::WaitingOnStaff {
        if ticket.status != TicketStatus::Closed {
            return Err(SupportError::OnlyClosedReopen);
        }
        (
            TicketRecord {
                status: TicketStatus::WaitingOnStaff,
                closed_at: None,
                closed_by_user_uuid: None,
                updated: now,
                ..*ticket
            },
            AuditEventKind::TicketReopened,
        )
    } else {
        return Err(SupportError::ClientStatusNotAllowed);
    };
    let prev = spaced_status_chars(ticket.status);
    let newer = spaced_status_chars(next.status);
    let lines = two_lines(
        labeled_line("**Previous Status:** ", &prev),
        labeled_line("**New Status:** ", &newer),
    );
    let webhook = event_for(DiscordWebhookEventKind::StatusChanged, &actor, None, lines);
    Ok(
        TicketChange {
            next,
            audit_event: event,
            audit_payload: AuditPayload::Empty,
            message: None,
            webhook: Some(webhook),
        },
    )
}


/// Why a staff message is refused, if it is: the ticket must exist and not
/// be deleted, and a message needs text or attachments.
pub open spec fn staff_message_error(
    t: TicketRecord,
    body: Seq<char>,
    attachment_count: nat,
) -> Option<SupportError> {
    if t.deleted_at.is_some() {
        Some(SupportError::TicketNotFound)
    } else if trim(body).len() == 0 && attachment_count == 0 {
        Some(SupportError::MessageEmpty { context: EmptyMessageContext::StaffMessage })
    } else {
        None
    }
}

/// The two lines announcing a status change in humanized form.
pub open spec fn humanized_status_lines(before: TicketStatus, after: TicketStatus) -> Seq<
    Seq<char>,
> {
    seq![
        "**Previous Status:** "@ + humanize(status_name(before)),
        "**New Status:** "@ + humanize(status_name(after)),
    ]
}

/// An internal note only touches the update time; a public reply moves the
/// ticket to waiting-on-client (reopening it). Either is announced with the
/// message, and with the status lines when the status changed.
pub open spec fn staff_message_change(
    c: TicketChange,
    t: TicketRecord,
    u: UserInfo,
    body: Seq<char>,
    is_internal: bool,
    now: i64,
) -> bool {
    &&& c.next == (if is_internal {
        after_internal_note(t, now)
    } else {
        after_staff_reply(t, now)
    })
    &&& c.audit_event == (if is_internal {
        AuditEventKind::InternalNoteAdded
    } else {
        AuditEventKind::ReplyAdded
    })
    &&& c.audit_payload == (if is_internal {
        AuditPayload::Empty
    } else {
        AuditPayload::Reply { is_internal: false }
    })
    &&& opt_view(c.message) == Some(trim(body))
    &&& c.webhook matches Some(e) && event_by(
        e,
        if is_internal {
            DiscordWebhookEventKind::InternalNote
        } else {
            DiscordWebhookEventKind::StaffReply
        },
        u,
        Some(trim(body)),
        if t.status != c.next.status {
            humanized_status_lines(t.status, c.next.status)
        } else {
            Seq::empty()
        },
    )
}

fn humanized_status_chars(s: TicketStatus) -> (r: Vec<char>)
    ensures
        r@ == humanize(status_name(s)),
{
    let v = chars_of(s.as_str());
    humanize_chars(&v)
}

fn humanized_status_line_pair(before: TicketStatus, after: TicketStatus) -> (r: Vec<String>)
    ensures
        lines_view(r) == humanized_status_lines(before, after),
{
    let a = humanized_status_chars(before);
    let b = humanized_status_chars(after);
    two_lines(labeled_line("**Previous Status:** ", &a), labeled_line("**New Status:** ", &b))
}

/// A staff member's reply or internal note.
pub fn plan_staff_message(
    ticket: &TicketRecord,
    user: &UserInfo,
    body: &str,
    is_internal: bool,
    attachment_count: usize,
    now: i64,
) -> (r: Result<TicketChange, SupportError>)
    ensures
        match r {
            Ok(c) => staff_message_error(*ticket, body@, attachment_count as nat) is None
                && staff_message_change(c, *ticket, *user, body@, is_internal, now),
            Err(e) => staff_message_error(*ticket, body@, attachment_count as nat) == Some(e),
        },
{
    if ticket.deleted_at.is_some() {
        return Err(SupportError::TicketNotFound);
    }
    let bv = chars_of(body);
    let message = trim_chars(&bv);
    if message.len() == 0 && attachment_count == 0 {
        return Err(SupportError::MessageEmpty { context: EmptyMessageContext::StaffMessage });
    }
    let actor = TicketActor::for_user(user, TicketActorType::Staff);
    let next = if is_internal {
        TicketRecord { updated: now, ..*ticket }
    } else {
        TicketRecord {
            status: TicketStatus::WaitingOnClient,
            last_reply_at: Some(now),
            last_reply_by_type: Some(TicketActorType::Staff),
            closed_at: None,
            closed_by_user_uuid: None,
            updated: now,
            ..*ticket
        }
    };
    let lines = if ticket.status != next.status {
        humanized_status_line_pair(ticket.status, next.status)
    } else {
        let no_lines: Vec<String> = Vec::new();
        assert(lines_view(no_lines) =~= Seq::<Seq<char>>::empty());
        no_lines
    };
    let kind = if is_internal {
        DiscordWebhookEventKind::InternalNote
    } else {
        DiscordWebhookEventKind::StaffReply
    };
    let webhook = event_for(kind, &actor, Some(string_of(&message)), lines);
    Ok(
        TicketChange {
            next,
            audit_event: if is_internal {
                AuditEventKind::InternalNoteAdded
            } else {
                AuditEventKind::ReplyAdded
            },
            audit_payload: if is_internal {
                AuditPayload::Empty
            } else {
                AuditPayload::Reply { is_internal: false }
            },
            message: Some(string_of(&message)),
            webhook: Some(webhook),
        },
    )
}

/// Why a staff status change is refused, if it is.
pub open spec fn staff_status_error(t: TicketRecord, status: Seq<char>) -> Option<SupportError> {
    if t.deleted_at.is_some() {
        Some(SupportError::TicketNotFound)
    } else if normalized_status(status) is None {
        Some(SupportError::InvalidTicketStatus)
    } else {
        None
    }
}

/// Staff may set any status; it is recorded and announced.
pub open spec fn staff_status_change(
    c: TicketChange,
    t: TicketRecord,
    u: UserInfo,
    status: Seq<char>,
    now: i64,
) -> bool {
    let s = normalized_status(status)->0;
    &&& c.next == after_staff_status(t, s, u.uuid, now)
    &&& c.audit_event == AuditEventKind::StatusChanged
    &&& c.audit_payload == AuditPayload::Status { status: s }
    &&& c.message is None
    &&& c.webhook matches Some(e) && event_by(
        e,
        DiscordWebhookEventKind::StatusChanged,
        u,
        None,
        humanized_status_lines(t.status, s),
    )
}

/// A staff member sets a ticket's status.
pub fn plan_staff_status(ticket: &TicketRecord, user: &UserInfo, status: &str, now: i64) -> (r:
    Result<TicketChange, SupportError>)
    ensures
        match r {
            Ok(c) => staff_status_error(*ticket, status@) is None && staff_status_change(
                c,
                *ticket,
                *user,
                status@,
                now,
            ),
            Err(e) => staff_status_error(*ticket, status@) == Some(e),
        },
{
    if ticket.deleted_at.is_some() {
        return Err(SupportError::TicketNotFound);
    }
    let s = match normalize_status(status) {
        Ok(s) => s,
        Err(e) => return Err(e),
    };
    let actor = TicketActor::for_user(user, TicketActorType::Staff);
    let closing = s == TicketStatus::Closed;
    let next = TicketRecord {
        status: s,
        closed_at: if closing {
            Some(now)
        } else {
            None
        },
        closed_by_user_uuid: if closing {
            Some(user.uuid)
        } else {
            None
        },
        updated: now,
        ..*ticket
    };
    let lines = humanized_status_line_pair(ticket.status, s);
    let webhook = event_for(DiscordWebhookEventKind::StatusChanged, &actor, None, lines);
    Ok(
        TicketChange {
            next,
            audit_event: AuditEventKind::StatusChanged,
            audit_payload: AuditPayload::Status { status: s },
            message: None,
            webhook: Some(webhook),
        },
    )
}

/// A user who may be assigned tickets, as found by uuid.
/// A client can neither reply to nor change the status of a ticket that is
/// not their own or that was deleted: both are answered as not found.
pub proof fn lemma_clients_act_only_on_own_tickets(
    t: TicketRecord,
    user_uuid: u128,
    allow_reply_on_closed: bool,
    allow_client_close: bool,
    body: Seq<char>,
    attachment_count: nat,
    status: Seq<char>,
)
    requires
        !visible_to_client(t, user_uuid),
    ensures
        client_reply_error(t, user_uuid, allow_reply_on_closed, body, attachment_count) == Some(
            SupportError::TicketNotFound,
        ),
        client_status_error(t, user_uuid, allow_client_close, status) == Some(
            SupportError::TicketNotFound,
        ),
{
}

pub struct StaffCandidate {
    pub uuid: u128,
    pub username: String,
    pub admin: bool,
    pub role_admin_permissions: Option<Vec<String>>,
}

pub open spec fn candidate_is_staff(c: StaffCandidate) -> bool {
    support_staff(
        c.admin,
        match c.role_admin_permissions {
            Some(v) => Some(v@.map_values(|s: String| s@)),
            None => None,
        },
    )
}

/// The outcome of looking up the requested assignee.
pub enum AssigneeLookup {
    /// No assignee requested: the ticket becomes unassigned.
    Unassign,
    /// The requested user does not exist.
    Missing,
    Found(StaffCandidate),
}

/// Why an assignment is refused, if it is: the ticket must exist, and the
/// assignee must exist and be support staff.
pub open spec fn assign_error(t: TicketRecord, lookup: AssigneeLookup) -> Option<SupportError> {
    if t.deleted_at.is_some() {
        Some(SupportError::TicketNotFound)
    } else {
        match lookup {
            AssigneeLookup::Unassign => None,
            AssigneeLookup::Missing => Some(SupportError::AssignedUserNotFound),
            AssigneeLookup::Found(c) => if candidate_is_staff(c) {
                None
            } else {
                Some(SupportError::AssignedUserNotStaff)
            },
        }
    }
}

pub open spec fn unassigned_or(name: Option<Seq<char>>) -> Seq<char> {
    match name {
        Some(n) => n,
        None => "Unassigned"@,
    }
}

/// The assignee is set (or cleared), recorded with uuid and username, and
/// announced with the previous and new assignee's usernames.
pub open spec fn assign_change(
    c: TicketChange,
    t: TicketRecord,
    u: UserInfo,
    lookup: AssigneeLookup,
    previous_username: Option<Seq<char>>,
    now: i64,
) -> bool {
    let (uuid, name) = match lookup {
        AssigneeLookup::Found(cand) => (Some(cand.uuid), Some(cand.username@)),
        _ => (None, None),
    };
    &&& c.next == after_assign(t, uuid, now)
    &&& c.audit_event == AuditEventKind::AssigneeChanged
    &&& c.audit_payload matches AuditPayload::Assignee { assigned_user_uuid, assigned_username }
        && assigned_user_uuid == uuid && opt_view(assigned_username) == name
    &&& c.message is None
    &&& c.webhook matches Some(e) && event_by(
        e,
        DiscordWebhookEventKind::AssignmentChanged,
        u,
        None,
        seq![
            "**Previous Assignee:** "@ + unassigned_or(previous_username),
            "**New Assignee:** "@ + unassigned_or(name),
        ],
    )
}

fn unassigned_or_chars(name: Option<&str>) -> (r: Vec<char>)
    ensures
        r@ == unassigned_or(
            match name {
                Some(n) => Some(n@),
                None => None,
            },
        ),
{
    match name {
        Some(n) => chars_of(n),
        None => chars_of("Unassigned"),
    }
}

/// A staff member assigns a ticket to a support staff user, or unassigns it.
pub fn plan_assign(
    ticket: &TicketRecord,
    user: &UserInfo,
    lookup: &AssigneeLookup,
    previous_assignee_username: Option<&str>,
    now: i64,
) -> (r: Result<TicketChange, SupportError>)
    ensures
        match r {
            Ok(c) => assign_error(*ticket, *lookup) is None && assign_change(
                c,
                *ticket,
                *user,
                *lookup,
                match previous_assignee_username {
                    Some(n) => Some(n@),
                    None => None,
                },
                now,
            ),
            Err(e) => assign_error(*ticket, *lookup) == Some(e),
        },
{
    if ticket.deleted_at.is_some() {
        return Err(SupportError::TicketNotFound);
    }
    let (uuid, name): (Option<u128>, Option<&str>) = match lookup {
        AssigneeLookup::Unassign => (None, None),
        AssigneeLookup::Missing => return Err(SupportError::AssignedUserNotFound),
        AssigneeLookup::Found(c) => {
            let role = c.role_admin_permissions.as_ref();
            let staff = has_support_permissions(c.admin, role);
            assert(strings_view(role) == match c.role_admin_permissions {
                Some(v) => Some(v@.map_values(|s: String| s@)),
                None => None,
            });
            if !staff {
                return Err(SupportError::AssignedUserNotStaff);
            }
            (Some(c.uuid), Some(c.username.as_str()))
        },
    };
    let actor = TicketActor::for_user(user, TicketActorType::Staff);
    let prev = unassigned_or_chars(previous_assignee_username);
    let newer = unassigned_or_chars(name);
    let lines = two_lines(
        labeled_line("**Previous Assignee:** ", &prev),
        labeled_line("**New Assignee:** ", &newer),
    );
    let webhook = event_for(DiscordWebhookEventKind::AssignmentChanged, &actor, None, lines);
    let assigned_username: Option<String> = match name {
        Some(n) => Some(n.to_owned()),
        None => None,
    };
    Ok(
        TicketChange {
            next: TicketRecord { assigned_user_uuid: uuid, updated: now, ..*ticket },
            audit_event: AuditEventKind::AssigneeChanged,
            audit_payload: AuditPayload::Assignee { assigned_user_uuid: uuid, assigned_username },
            message: None,
            webhook: Some(webhook),
        },
    )
}


/// The view of an optional string slice.
pub open spec fn opt_str_view(o: Option<&str>) -> Option<Seq<char>> {
    match o {
        Some(v) => Some(v@),
        None => None,
    }
}

/// Why a priority change is refused, if it is.
pub open spec fn priority_error(t: TicketRecord, priority: Option<Seq<char>>) -> Option<
    SupportError,
> {
    if t.deleted_at.is_some() {
        Some(SupportError::TicketNotFound)
    } else {
        match normalized_priority(priority) {
            Ok(_) => None,
            Err(e) => Some(e),
        }
    }
}

/// The priority is set (a blank or absent value clears it) and recorded;
/// nothing is announced.
pub open spec fn priority_change(
    c: TicketChange,
    t: TicketRecord,
    priority: Option<Seq<char>>,
    now: i64,
) -> bool {
    let p = normalized_priority(priority)->Ok_0;
    &&& c.next == after_priority(t, p, now)
    &&& c.audit_event == AuditEventKind::PriorityChanged
    &&& c.audit_payload == AuditPayload::Priority { priority: p }
    &&& c.message is None
    &&& c.webhook is None
}

/// A staff member changes a ticket's priority.
pub fn plan_priority(ticket: &TicketRecord, priority: Option<&str>, now: i64) -> (r: Result<
    TicketChange,
    SupportError,
>)
    ensures
        match r {
            Ok(c) => priority_error(*ticket, opt_str_view(priority)) is None && priority_change(
                c,
                *ticket,
                opt_str_view(priority),
                now,
            ),
            Err(e) => priority_error(*ticket, opt_str_view(priority)) == Some(e),
        },
{
    if ticket.deleted_at.is_some() {
        return Err(SupportError::TicketNotFound);
    }
    let p = match normalize_priority(priority) {
        Ok(p) => p,
        Err(e) => return Err(e),
    };
    Ok(
        TicketChange {
            next: TicketRecord { priority: p, updated: now, ..*ticket },
            audit_event: AuditEventKind::PriorityChanged,
            audit_payload: AuditPayload::Priority { priority: p },
            message: None,
            webhook: None,
        },
    )
}

/// The outcome of looking up a requested category.
pub enum CategoryLookup {
    /// No category requested.
    NotRequested,
    /// The requested category does not exist.
    Missing,
    Found { uuid: u128, name: String, enabled: bool },
}

/// Why a category change is refused, if it is.
pub open spec fn category_error(t: TicketRecord, lookup: CategoryLookup) -> Option<SupportError> {
    if t.deleted_at.is_some() {
        Some(SupportError::TicketNotFound)
    } else if lookup is Missing {
        Some(SupportError::SelectedCategoryNotFound)
    } else {
        None
    }
}

/// The category is set (or cleared) and recorded with uuid and name;
/// nothing is announced. Staff may choose disabled categories.
pub open spec fn category_change(
    c: TicketChange,
    t: TicketRecord,
    lookup: CategoryLookup,
    now: i64,
) -> bool {
    let (uuid, name) = match lookup {
        CategoryLookup::Found { uuid, name, enabled } => (Some(uuid), Some(name@)),
        _ => (None, None),
    };
    &&& c.next == after_category(t, uuid, now)
    &&& c.audit_event == AuditEventKind::CategoryChanged
    &&& c.audit_payload matches AuditPayload::Category { category_uuid, category_name }
        && category_uuid == uuid && opt_view(category_name) == name
    &&& c.message is None
    &&& c.webhook is None
}

/// A staff member changes a ticket's category.
pub fn plan_category(ticket: &TicketRecord, lookup: &CategoryLookup, now: i64) -> (r: Result<
    TicketChange,
    SupportError,
>)
    ensures
        match r {
            Ok(c) => category_error(*ticket, *lookup) is None && category_change(
                c,
                *ticket,
                *lookup,
                now,
            ),
            Err(e) => category_error(*ticket, *lookup) == Some(e),
        },
{
    if ticket.deleted_at.is_some() {
        return Err(SupportError::TicketNotFound);
    }
    let (uuid, name): (Option<u128>, Option<String>) = match lookup {
        CategoryLookup::NotRequested => (None, None),
        CategoryLookup::Missing => return Err(SupportError::SelectedCategoryNotFound),
        CategoryLookup::Found { uuid, name, enabled } => (Some(*uuid), Some(name.clone())),
    };
    Ok(
        TicketChange {
            next: TicketRecord { category_uuid: uuid, updated: now, ..*ticket },
            audit_event: AuditEventKind::CategoryChanged,
            audit_payload: AuditPayload::Category { category_uuid: uuid, category_name: name },
            message: None,
            webhook: None,
        },
    )
}

/// Why a deletion is refused, if it is: the ticket must not already be deleted.
pub open spec fn delete_error(t: TicketRecord) -> Option<SupportError> {
    if t.deleted_at.is_some() {
        Some(SupportError::TicketNotFound)
    } else {
        None
    }
}

/// The ticket is soft-deleted (and closed), recorded and announced.
pub open spec fn delete_change(c: TicketChange, t: TicketRecord, u: UserInfo, now: i64) -> bool {
    &&& c.next == after_soft_delete(t, u.uuid, now)
    &&& c.audit_event == AuditEventKind::TicketDeleted
    &&& c.audit_payload == AuditPayload::Empty
    &&& c.message is None
    &&& c.webhook matches Some(e) && event_by(
        e,
        DiscordWebhookEventKind::TicketDeleted,
        u,
        None,
        Seq::empty(),
    )
}

/// A staff member soft-deletes a ticket.
pub fn plan_soft_delete(ticket: &TicketRecord, user: &UserInfo, now: i64) -> (r: Result<
    TicketChange,
    SupportError,
>)
    ensures
        match r {
            Ok(c) => delete_error(*ticket) is None && delete_change(c, *ticket, *user, now),
            Err(e) => delete_error(*ticket) == Some(e),
        },
{
    if ticket.deleted_at.is_some() {
        return Err(SupportError::TicketNotFound);
    }
    let actor = TicketActor::for_user(user, TicketActorType::Staff);
    let no_lines: Vec<String> = Vec::new();
    assert(lines_view(no_lines) =~= Seq::<Seq<char>>::empty());
    let webhook = event_for(DiscordWebhookEventKind::TicketDeleted, &actor, None, no_lines);
    let closed_at = match ticket.closed_at {
        Some(at) => Some(at),
        None => Some(now),
    };
    let closed_by = match ticket.closed_by_user_uuid {
        Some(by) => Some(by),
        None => Some(user.uuid),
    };
    Ok(
        TicketChange {
            next: TicketRecord {
                deleted_at: Some(now),
                status: TicketStatus::Closed,
                closed_at,
                closed_by_user_uuid: closed_by,
                updated: now,
                ..*ticket
            },
            audit_event: AuditEventKind::TicketDeleted,
            audit_payload: AuditPayload::Empty,
            message: None,
            webhook: Some(webhook),
        },
    )
}

/// Whether the deletion of a server marks this ticket: it links that
/// server, is not deleted, and was not marked before.
pub open spec fn linked_server_marks(t: TicketRecord, server_uuid: u128) -> bool {
    t.linked_server_uuid == Some(server_uuid) && t.deleted_at.is_none()
        && t.linked_server_deleted_at.is_none()
}

/// When a server is deleted, each ticket that links it records when (by the
/// system, without announcement); other tickets are left alone.
pub fn plan_linked_server_deleted(ticket: &TicketRecord, server_uuid: u128, now: i64) -> (r:
    Option<TicketChange>)
    ensures
        r is Some <==> linked_server_marks(*ticket, server_uuid),
        r matches Some(c) ==> {
            &&& c.next == after_linked_server_deleted(*ticket, now)
            &&& c.audit_event == AuditEventKind::LinkedServerDeleted
            &&& c.audit_payload == AuditPayload::LinkedServer { linked_server_uuid: server_uuid }
            &&& c.message is None
            &&& c.webhook is None
        },
{
    let links = match ticket.linked_server_uuid {
        Some(s) => s == server_uuid,
        None => false,
    };
    if !links || ticket.deleted_at.is_some() || ticket.linked_server_deleted_at.is_some() {
        return None;
    }
    Some(
        TicketChange {
            next: TicketRecord { linked_server_deleted_at: Some(now), updated: now, ..*ticket },
            audit_event: AuditEventKind::LinkedServerDeleted,
            audit_payload: AuditPayload::LinkedServer { linked_server_uuid: server_uuid },
            message: None,
            webhook: None,
        },
    )
}

/// A deleted ticket is out of reach: every operation on it is answered
/// with "ticket not found", and a server deletion leaves it alone.
pub proof fn lemma_deleted_ticket_frozen(
    t: TicketRecord,
    user_uuid: u128,
    allow: bool,
    body: Seq<char>,
    attachment_count: nat,
    status: Seq<char>,
    lookup: AssigneeLookup,
    priority: Option<Seq<char>>,
    category: CategoryLookup,
    server_uuid: u128,
)
    requires
        t.deleted_at.is_some(),
    ensures
        client_reply_error(t, user_uuid, allow, body, attachment_count) == Some(
            SupportError::TicketNotFound,
        ),
        client_status_error(t, user_uuid, allow, status) == Some(SupportError::TicketNotFound),
        staff_message_error(t, body, attachment_count) == Some(SupportError::TicketNotFound),
        staff_status_error(t, status) == Some(SupportError::TicketNotFound),
        assign_error(t, lookup) == Some(SupportError::TicketNotFound),
        priority_error(t, priority) == Some(SupportError::TicketNotFound),
        category_error(t, category) == Some(SupportError::TicketNotFound),
        delete_error(t) == Some(SupportError::TicketNotFound),
        !linked_server_marks(t, server_uuid),
{
}

/// A client only ever closes or reopens: an accepted status change leaves
/// the ticket closed or waiting on staff.
pub proof fn lemma_client_status_outcomes(
    t: TicketRecord,
    u: UserInfo,
    allow_client_close: bool,
    status: Seq<char>,
    now: i64,
    c: TicketChange,
)
    requires
        client_status_error(t, u.uuid, allow_client_close, status) is None,
        client_status_change(c, t, u, status, now),
    ensures
        c.next.status == TicketStatus::Closed || c.next.status == TicketStatus::WaitingOnStaff,
        c.next.status == TicketStatus::Closed ==> allow_client_close,
        c.next.status == TicketStatus::WaitingOnStaff ==> t.status == TicketStatus::Closed,
{
}

/// Replies move a ticket between the two waiting states: after a client's
/// reply it waits on staff, after a staff reply it waits on the client, and
/// an internal note leaves the status and last reply untouched.
pub proof fn lemma_reply_outcomes(t: TicketRecord, now: i64)
    ensures
        after_client_reply(t, now).status == TicketStatus::WaitingOnStaff,
        after_client_reply(t, now).closed_at is None,
        after_client_reply(t, now).last_reply_by_type == Some(TicketActorType::Client),
        after_staff_reply(t, now).status == TicketStatus::WaitingOnClient,
        after_staff_reply(t, now).closed_at is None,
        after_staff_reply(t, now).last_reply_by_type == Some(TicketActorType::Staff),
        after_internal_note(t, now).status == t.status,
        after_internal_note(t, now).last_reply_at == t.last_reply_at,
        after_internal_note(t, now).last_reply_by_type == t.last_reply_by_type,
{
}


// ---------------------------------------------------------------------
// Ticket creation.

/// The limits of the rate limiter for ticket creation, when it applies:
/// a positive number of hits, in a window of the given seconds.
pub open spec fn creation_rate_limit(hits: i32, window_seconds: i32) -> Option<(u64, u64)> {
    if hits > 0 {
        Some((hits as u64, window_seconds as u64))
    } else {
        None
    }
}

/// The rate limiter's hits and window for ticket creation, if it applies.
pub fn create_ticket_rate_limit(hits: i32, window_seconds: i32) -> (r: Option<(u64, u64)>)
    ensures
        r == creation_rate_limit(hits, window_seconds),
{
    if hits > 0 {
        Some((hits as u64, window_seconds as u64))
    } else {
        None
    }
}

/// Whether the open-ticket limit is checked at all: only when positive.
pub fn open_ticket_limit_applies(max_open: i32) -> (r: bool)
    ensures
        r == (max_open > 0),
{
    max_open > 0
}

/// A client with `open_count` open tickets may open another unless a
/// positive limit is reached.
pub fn check_open_ticket_limit(max_open: i32, open_count: i64) -> (r: Result<(), SupportError>)
    ensures
        r is Err <==> (max_open > 0 && open_count >= max_open as i64),
        r is Err ==> r == Err::<(), SupportError>(
            SupportError::TooManyOpenTickets { max_open },
        ),
{
    if max_open > 0 && open_count >= max_open as i64 {
        Err(SupportError::TooManyOpenTickets { max_open })
    } else {
        Ok(())
    }
}

/// The checked content of a new ticket.
pub struct NewTicketContent {
    pub subject: String,
    pub message: String,
    pub metadata: String,
}

/// Why the content of a new ticket is refused, if it is: a subject is
/// needed, a message or an attachment is needed, and the metadata must be
/// a small enough object.
pub open spec fn new_ticket_content_error(
    subject: Seq<char>,
    message: Seq<char>,
    attachment_count: nat,
    metadata: Option<&str>,
) -> Option<SupportError> {
    if trim(subject).len() == 0 {
        Some(SupportError::SubjectEmpty)
    } else if trim(message).len() == 0 && attachment_count == 0 {
        Some(SupportError::MessageEmpty { context: EmptyMessageContext::NewTicket })
    } else {
        match normalized_metadata(metadata) {
            Ok(_) => None,
            Err(e) => Some(e),
        }
    }
}

/// The subject and message of a new ticket, trimmed, and its metadata.
pub fn prepare_new_ticket(
    subject: &str,
    message: &str,
    attachment_count: usize,
    metadata: Option<&str>,
) -> (r: Result<NewTicketContent, SupportError>)
    ensures
        match r {
            Ok(c) => {
                &&& new_ticket_content_error(subject@, message@, attachment_count as nat, metadata)
                    is None
                &&& c.subject@ == trim(subject@)
                &&& c.message@ == trim(message@)
                &&& normalized_metadata(metadata) == Ok::<Seq<char>, SupportError>(c.metadata@)
            },
            Err(e) => new_ticket_content_error(
                subject@,
                message@,
                attachment_count as nat,
                metadata,
            ) == Some(e),
        },
{
    let sv = chars_of(subject);
    let st = trim_chars(&sv);
    let mv = chars_of(message);
    let mt = trim_chars(&mv);
    if st.len() == 0 {
        return Err(SupportError::SubjectEmpty);
    }
    if mt.len() == 0 && attachment_count == 0 {
        return Err(SupportError::MessageEmpty { context: EmptyMessageContext::NewTicket });
    }
    let metadata = match normalize_metadata(metadata) {
        Ok(m) => m,
        Err(e) => return Err(e),
    };
    Ok(NewTicketContent { subject: string_of(&st), message: string_of(&mt), metadata })
}

/// The category a client may file a new ticket under: none when none is
/// requested; otherwise categories must be enabled and the category must
/// exist and be enabled.
pub open spec fn new_ticket_category(categories_enabled: bool, lookup: CategoryLookup) -> Result<
    Option<u128>,
    SupportError,
> {
    match lookup {
        CategoryLookup::NotRequested => Ok(None),
        _ => if !categories_enabled {
            Err(SupportError::CategoriesDisabled)
        } else {
            match lookup {
                CategoryLookup::Found { uuid, name, enabled } => if enabled {
                    Ok(Some(uuid))
                } else {
                    Err(SupportError::SelectedCategoryDisabled)
                },
                _ => Err(SupportError::SelectedCategoryNotFound),
            }
        },
    }
}

pub fn choose_new_ticket_category(categories_enabled: bool, lookup: &CategoryLookup) -> (r: Result<
    Option<u128>,
    SupportError,
>)
    ensures
        r == new_ticket_category(categories_enabled, *lookup),
{
    match lookup {
        CategoryLookup::NotRequested => Ok(None),
        CategoryLookup::Missing => if !categories_enabled {
            Err(SupportError::CategoriesDisabled)
        } else {
            Err(SupportError::SelectedCategoryNotFound)
        },
        CategoryLookup::Found { uuid, name, enabled } => if !categories_enabled {
            Err(SupportError::CategoriesDisabled)
        } else if *enabled {
            Ok(Some(*uuid))
        } else {
            Err(SupportError::SelectedCategoryDisabled)
        },
    }
}

/// The outcome of looking up the server a client links to a new ticket,
/// among the servers the client may access.
pub enum ServerLookup {
    NotRequested,
    Missing,
    Found { uuid: u128 },
}

/// The linked server of a new ticket: none when none is requested, and an
/// error when the client cannot access the requested one.
pub fn choose_linked_server(lookup: &ServerLookup) -> (r: Result<Option<u128>, SupportError>)
    ensures
        r == (match *lookup {
            ServerLookup::NotRequested => Ok(None),
            ServerLookup::Missing => Err(SupportError::ServerNotAccessible),
            ServerLookup::Found { uuid } => Ok(Some(uuid)),
        }),
{
    match lookup {
        ServerLookup::NotRequested => Ok(None),
        ServerLookup::Missing => Err(SupportError::ServerNotAccessible),
        ServerLookup::Found { uuid } => Ok(Some(*uuid)),
    }
}

/// A new ticket: waiting on staff with normal priority, its first reply by
/// the client, unassigned, open and not deleted.
pub open spec fn new_ticket(
    uuid: u128,
    creator: u128,
    category: Option<u128>,
    server: Option<u128>,
    now: i64,
) -> TicketRecord {
    TicketRecord {
        uuid,
        creator_user_uuid: creator,
        status: TicketStatus::WaitingOnStaff,
        priority: Some(TicketPriority::Normal),
        category_uuid: category,
        assigned_user_uuid: None,
        linked_server_uuid: server,
        linked_server_deleted_at: None,
        last_reply_at: Some(now),
        last_reply_by_type: Some(TicketActorType::Client),
        closed_at: None,
        closed_by_user_uuid: None,
        deleted_at: None,
        updated: now,
    }
}

/// A new ticket is consistent.
pub proof fn lemma_new_ticket_wf(
    uuid: u128,
    creator: u128,
    category: Option<u128>,
    server: Option<u128>,
    now: i64,
)
    ensures
        ticket_wf(new_ticket(uuid, creator, category, server, now)),
{
}

/// A new ticket is filed under the category and linked to the server chosen
/// for it, belongs to its creator, and starts open to staff: waiting on
/// staff, normal priority, unassigned, not closed, not deleted, with the
/// creator's message as its last reply.
pub proof fn lemma_new_ticket_fields(
    uuid: u128,
    creator: u128,
    category: Option<u128>,
    server: Option<u128>,
    now: i64,
)
    ensures
        new_ticket(uuid, creator, category, server, now).uuid == uuid,
        new_ticket(uuid, creator, category, server, now).creator_user_uuid == creator,
        new_ticket(uuid, creator, category, server, now).category_uuid == category,
        new_ticket(uuid, creator, category, server, now).linked_server_uuid == server,
        new_ticket(uuid, creator, category, server, now).status == TicketStatus::WaitingOnStaff,
        new_ticket(uuid, creator, category, server, now).priority == Some(TicketPriority::Normal),
        new_ticket(uuid, creator, category, server, now).assigned_user_uuid is None,
        new_ticket(uuid, creator, category, server, now).closed_at is None,
        new_ticket(uuid, creator, category, server, now).deleted_at is None,
        new_ticket(uuid, creator, category, server, now).last_reply_at == Some(now),
        new_ticket(uuid, creator, category, server, now).last_reply_by_type == Some(
            TicketActorType::Client,
        ),
        visible_to_client(new_ticket(uuid, creator, category, server, now), creator),
{
}

/// The creation of a ticket by a client: its first message is the trimmed
/// message, the creation is recorded with subject, category and server,
/// and announced with the message.
pub fn plan_create_ticket(
    ticket_uuid: u128,
    user: &UserInfo,
    content: &NewTicketContent,
    category: Option<u128>,
    server: Option<u128>,
    now: i64,
) -> (c: TicketChange)
    ensures
        c.next == new_ticket(ticket_uuid, user.uuid, category, server, now),
        c.next.uuid == ticket_uuid,
        c.next.creator_user_uuid == user.uuid,
        c.next.category_uuid == category,
        c.next.linked_server_uuid == server,
        c.next.status == TicketStatus::WaitingOnStaff,
        c.next.priority == Some(TicketPriority::Normal),
        c.next.assigned_user_uuid is None,
        c.next.closed_at is None && c.next.closed_by_user_uuid is None,
        c.next.deleted_at is None && c.next.linked_server_deleted_at is None,
        c.next.last_reply_at == Some(now),
        c.next.last_reply_by_type == Some(TicketActorType::Client),
        c.next.updated == now,
        c.audit_event == AuditEventKind::TicketCreated,
        c.audit_payload matches AuditPayload::Created {
            subject,
            category_uuid,
            linked_server_uuid,
        } && subject@ == content.subject@ && category_uuid == category && linked_server_uuid
            == server,
        opt_view(c.message) == Some(content.message@),
        c.webhook matches Some(e) && event_by(
            e,
            DiscordWebhookEventKind::TicketCreated,
            *user,
            Some(content.message@),
            Seq::empty(),
        ),
{
    let actor = TicketActor::for_user(user, TicketActorType::Client);
    let no_lines: Vec<String> = Vec::new();
    assert(lines_view(no_lines) =~= Seq::<Seq<char>>::empty());
    let webhook = event_for(
        DiscordWebhookEventKind::TicketCreated,
        &actor,
        Some(content.message.clone()),
        no_lines,
    );
    TicketChange {
        next: TicketRecord {
            uuid: ticket_uuid,
            creator_user_uuid: user.uuid,
            status: TicketStatus::WaitingOnStaff,
            priority: Some(TicketPriority::Normal),
            category_uuid: category,
            assigned_user_uuid: None,
            linked_server_uuid: server,
            linked_server_deleted_at: None,
            last_reply_at: Some(now),
            last_reply_by_type: Some(TicketActorType::Client),
            closed_at: None,
            closed_by_user_uuid: None,
            deleted_at: None,
            updated: now,
        },
        audit_event: AuditEventKind::TicketCreated,
        audit_payload: AuditPayload::Created {
            subject: content.subject.clone(),
            category_uuid: category,
            linked_server_uuid: server,
        },
        message: Some(content.message.clone()),
        webhook: Some(webhook),
    }
}

} // verus!
