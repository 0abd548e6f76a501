use supportsystem::discord_webhook::DiscordWebhookEventKind;
use supportsystem::error::{EmptyMessageContext, SupportError};
use supportsystem::lifecycle::{
    actor_display_name, check_open_ticket_limit, client_can_see, staff_can_see, choose_linked_server, choose_new_ticket_category,
    create_ticket_rate_limit, open_ticket_limit_applies, plan_assign, plan_category,
    plan_client_reply, plan_client_status, plan_create_ticket, plan_linked_server_deleted,
    plan_priority, plan_soft_delete, plan_staff_message, plan_staff_status, prepare_new_ticket,
    AssigneeLookup, AuditEventKind, AuditPayload, CategoryLookup, ServerLookup, StaffCandidate,
    TicketRecord, UserInfo,
};
use supportsystem::models::{TicketActorType, TicketPriority, TicketStatus};

const CLIENT: u128 = 7;
const STAFF: u128 = 9;

fn open_ticket() -> TicketRecord {
    TicketRecord {
        uuid: 1,
        creator_user_uuid: CLIENT,
        status: TicketStatus::Open,
        priority: Some(TicketPriority::Normal),
        category_uuid: None,
        assigned_user_uuid: None,
        linked_server_uuid: Some(42),
        linked_server_deleted_at: None,
        last_reply_at: None,
        last_reply_by_type: None,
        closed_at: None,
        closed_by_user_uuid: None,
        deleted_at: None,
        updated: 100,
    }
}

fn closed_ticket() -> TicketRecord {
    TicketRecord {
        status: TicketStatus::Closed,
        closed_at: Some(150),
        closed_by_user_uuid: Some(STAFF),
        ..open_ticket()
    }
}

fn wf(t: &TicketRecord) -> bool {
    (t.status == TicketStatus::Closed) == t.closed_at.is_some()
        && t.closed_at.is_some() == t.closed_by_user_uuid.is_some()
        && t.last_reply_at.is_some() == t.last_reply_by_type.is_some()
        && (t.deleted_at.is_none() || t.status == TicketStatus::Closed)
}

fn client() -> UserInfo {
    UserInfo {
        uuid: CLIENT,
        username: "alice".to_string(),
        name_first: "Alice".to_string(),
        name_last: "".to_string(),
    }
}

fn staff() -> UserInfo {
    UserInfo {
        uuid: STAFF,
        username: "bob".to_string(),
        name_first: "Bob".to_string(),
        name_last: "Stone".to_string(),
    }
}

#[test]
fn display_names_are_trimmed() {
    assert_eq!(actor_display_name("Alice", ""), "Alice");
    assert_eq!(actor_display_name(" Bob", "Stone "), "Bob Stone");
}

#[test]
fn client_reply_reopens_and_waits_on_staff() {
    let c = plan_client_reply(&closed_ticket(), &client(), true, "  thanks  ", 0, 200).unwrap();
    assert_eq!(c.next.status, TicketStatus::WaitingOnStaff);
    assert_eq!(c.next.closed_at, None);
    assert_eq!(c.next.last_reply_at, Some(200));
    assert_eq!(c.next.last_reply_by_type, Some(TicketActorType::Client));
    assert_eq!(c.audit_event, AuditEventKind::TicketReopenedByReply);
    assert_eq!(c.message.as_deref(), Some("thanks"));
    let e = c.webhook.unwrap();
    assert_eq!(e.kind, DiscordWebhookEventKind::ClientReply);
    assert_eq!(e.actor_display_name.as_deref(), Some("Alice"));
    assert!(wf(&c.next));
}

#[test]
fn client_reply_errors() {
    assert_eq!(
        plan_client_reply(&closed_ticket(), &client(), false, "hi", 0, 200).err(),
        Some(SupportError::ReplyOnClosed)
    );
    assert_eq!(
        plan_client_reply(&open_ticket(), &staff(), true, "hi", 0, 200).err(),
        Some(SupportError::TicketNotFound)
    );
    let e = plan_client_reply(&open_ticket(), &client(), true, "   ", 0, 200).err().unwrap();
    assert_eq!(e, SupportError::MessageEmpty { context: EmptyMessageContext::Reply });
    assert_eq!(e.message(), "reply cannot be empty");
    assert!(plan_client_reply(&open_ticket(), &client(), true, "   ", 1, 200).is_ok());
    let c = plan_client_reply(&open_ticket(), &client(), false, "more", 0, 200).unwrap();
    assert_eq!(c.audit_event, AuditEventKind::ReplyAdded);
}

#[test]
fn clients_close_and_reopen() {
    let c = plan_client_status(&open_ticket(), &client(), true, " closed ", 300).unwrap();
    assert_eq!(c.next.status, TicketStatus::Closed);
    assert_eq!(c.next.closed_at, Some(300));
    assert_eq!(c.next.closed_by_user_uuid, Some(CLIENT));
    assert_eq!(c.audit_event, AuditEventKind::TicketClosed);
    let lines = c.webhook.unwrap().extra_lines;
    assert_eq!(lines, vec!["**Previous Status:** open".to_string(), "**New Status:** closed".to_string()]);
    assert!(wf(&c.next));

    let r = plan_client_status(&closed_ticket(), &client(), false, "open", 300).unwrap();
    assert_eq!(r.next.status, TicketStatus::WaitingOnStaff);
    assert_eq!(r.audit_event, AuditEventKind::TicketReopened);
    assert!(wf(&r.next));
}

#[test]
fn client_status_errors() {
    let t = open_ticket();
    assert_eq!(plan_client_status(&t, &client(), false, "closed", 1).err(), Some(SupportError::ClientCloseDisabled));
    assert_eq!(plan_client_status(&t, &client(), true, "waiting_on_staff", 1).err(), Some(SupportError::OnlyClosedReopen));
    assert_eq!(plan_client_status(&t, &client(), true, "answered", 1).err(), Some(SupportError::ClientStatusNotAllowed));
    assert_eq!(plan_client_status(&t, &client(), true, "bogus", 1).err(), Some(SupportError::InvalidTicketStatus));
    let deleted = TicketRecord { deleted_at: Some(5), ..closed_ticket() };
    assert_eq!(plan_client_status(&deleted, &client(), true, "open", 1).err(), Some(SupportError::TicketNotFound));
}

#[test]
fn staff_replies_and_internal_notes() {
    let reply = plan_staff_message(&open_ticket(), &staff(), "On it", false, 0, 400).unwrap();
    assert_eq!(reply.next.status, TicketStatus::WaitingOnClient);
    assert_eq!(reply.next.last_reply_by_type, Some(TicketActorType::Staff));
    assert_eq!(reply.audit_event, AuditEventKind::ReplyAdded);
    let e = reply.webhook.unwrap();
    assert_eq!(e.kind, DiscordWebhookEventKind::StaffReply);
    assert_eq!(e.actor_display_name.as_deref(), Some("Bob Stone"));
    assert_eq!(
        e.extra_lines,
        vec![
            "**Previous Status:** Open".to_string(),
            "**New Status:** Waiting On Client".to_string()
        ]
    );

    let note = plan_staff_message(&closed_ticket(), &staff(), "note", true, 0, 400).unwrap();
    assert_eq!(note.next.status, TicketStatus::Closed);
    assert_eq!(note.next.updated, 400);
    assert_eq!(note.audit_event, AuditEventKind::InternalNoteAdded);
    let n = note.webhook.unwrap();
    assert_eq!(n.kind, DiscordWebhookEventKind::InternalNote);
    assert!(n.extra_lines.is_empty());

    assert_eq!(
        plan_staff_message(&open_ticket(), &staff(), "", false, 0, 1).err(),
        Some(SupportError::MessageEmpty { context: EmptyMessageContext::StaffMessage })
    );
}

#[test]
fn staff_set_any_status() {
    let c = plan_staff_status(&open_ticket(), &staff(), "closed", 500).unwrap();
    assert_eq!(c.next.closed_by_user_uuid, Some(STAFF));
    assert!(matches!(c.audit_payload, AuditPayload::Status { status: TicketStatus::Closed }));
    let p = plan_staff_status(&closed_ticket(), &staff(), "pending", 500).unwrap();
    assert_eq!(p.next.closed_at, None);
    assert!(wf(&p.next));
    assert_eq!(plan_staff_status(&open_ticket(), &staff(), "nope", 1).err(), Some(SupportError::InvalidTicketStatus));
}

#[test]
fn assignment_needs_support_staff() {
    let cand = StaffCandidate {
        uuid: 11,
        username: "carol".to_string(),
        admin: false,
        role_admin_permissions: Some(vec!["tickets.view-all".to_string()]),
    };
    let c = plan_assign(&open_ticket(), &staff(), &AssigneeLookup::Found(cand), None, 600).unwrap();
    assert_eq!(c.next.assigned_user_uuid, Some(11));
    assert_eq!(
        c.webhook.unwrap().extra_lines,
        vec!["**Previous Assignee:** Unassigned".to_string(), "**New Assignee:** carol".to_string()]
    );
    let outsider = StaffCandidate {
        uuid: 12,
        username: "dave".to_string(),
        admin: false,
        role_admin_permissions: Some(vec!["servers.read".to_string()]),
    };
    assert_eq!(
        plan_assign(&open_ticket(), &staff(), &AssigneeLookup::Found(outsider), None, 1).err(),
        Some(SupportError::AssignedUserNotStaff)
    );
    assert_eq!(
        plan_assign(&open_ticket(), &staff(), &AssigneeLookup::Missing, None, 1).err(),
        Some(SupportError::AssignedUserNotFound)
    );
    let u = plan_assign(&open_ticket(), &staff(), &AssigneeLookup::Unassign, Some("carol"), 1).unwrap();
    assert_eq!(u.next.assigned_user_uuid, None);
}

#[test]
fn priority_and_category_changes() {
    let p = plan_priority(&open_ticket(), Some(" high "), 700).unwrap();
    assert_eq!(p.next.priority, Some(TicketPriority::High));
    let cleared = plan_priority(&open_ticket(), Some("  "), 700).unwrap();
    assert_eq!(cleared.next.priority, None);
    assert_eq!(plan_priority(&open_ticket(), Some("urgent!"), 1).err(), Some(SupportError::InvalidTicketPriority));

    let found = CategoryLookup::Found { uuid: 5, name: "Billing".to_string(), enabled: false };
    let c = plan_category(&open_ticket(), &found, 700).unwrap();
    assert_eq!(c.next.category_uuid, Some(5));
    assert_eq!(plan_category(&open_ticket(), &CategoryLookup::Missing, 1).err(), Some(SupportError::SelectedCategoryNotFound));
    let none = plan_category(&open_ticket(), &CategoryLookup::NotRequested, 1).unwrap();
    assert_eq!(none.next.category_uuid, None);
}

#[test]
fn soft_delete_closes_and_keeps_earlier_closing() {
    let d = plan_soft_delete(&open_ticket(), &staff(), 800).unwrap();
    assert_eq!(d.next.deleted_at, Some(800));
    assert_eq!(d.next.status, TicketStatus::Closed);
    assert_eq!(d.next.closed_at, Some(800));
    assert!(wf(&d.next));
    let k = plan_soft_delete(&closed_ticket(), &client(), 800).unwrap();
    assert_eq!(k.next.closed_at, Some(150));
    assert_eq!(k.next.closed_by_user_uuid, Some(STAFF));
    assert_eq!(k.webhook.unwrap().kind, DiscordWebhookEventKind::TicketDeleted);
    assert_eq!(plan_soft_delete(&d.next, &staff(), 900).err(), Some(SupportError::TicketNotFound));
}

#[test]
fn deleted_tickets_take_no_further_operations() {
    let deleted = plan_soft_delete(&open_ticket(), &staff(), 800).unwrap().next;
    assert!(plan_client_reply(&deleted, &client(), true, "x", 0, 1).is_err());
    assert!(plan_staff_message(&deleted, &staff(), "x", false, 0, 1).is_err());
    assert!(plan_staff_status(&deleted, &staff(), "open", 1).is_err());
    assert!(plan_priority(&deleted, Some("low"), 1).is_err());
    assert!(plan_category(&deleted, &CategoryLookup::NotRequested, 1).is_err());
    assert!(plan_assign(&deleted, &staff(), &AssigneeLookup::Unassign, None, 1).is_err());
    assert!(plan_linked_server_deleted(&deleted, 42, 1).is_none());
}

#[test]
fn linked_server_deletion_marks_once() {
    let c = plan_linked_server_deleted(&open_ticket(), 42, 900).unwrap();
    assert_eq!(c.next.linked_server_deleted_at, Some(900));
    assert!(c.webhook.is_none());
    assert!(plan_linked_server_deleted(&c.next, 42, 901).is_none());
    assert!(plan_linked_server_deleted(&open_ticket(), 43, 900).is_none());
}

#[test]
fn creation_limits() {
    assert_eq!(create_ticket_rate_limit(0, 60), None);
    assert_eq!(create_ticket_rate_limit(3, 60), Some((3, 60)));
    assert!(!open_ticket_limit_applies(0));
    assert!(open_ticket_limit_applies(2));
    assert_eq!(check_open_ticket_limit(2, 1), Ok(()));
    let e = check_open_ticket_limit(2, 2).unwrap_err();
    assert_eq!(e, SupportError::TooManyOpenTickets { max_open: 2 });
    assert_eq!(e.message(), "you can only have 2 open support tickets at a time");
    assert_eq!(check_open_ticket_limit(0, 99), Ok(()));
    assert_eq!(SupportError::RateLimited.status_code(), 429);
}

#[test]
fn new_ticket_content_is_checked() {
    let c = prepare_new_ticket("  Help  ", " text ", 0, None).unwrap();
    assert_eq!(c.subject, "Help");
    assert_eq!(c.message, "text");
    assert_eq!(c.metadata, "{}");
    assert_eq!(prepare_new_ticket(" ", "x", 0, None).err(), Some(SupportError::SubjectEmpty));
    assert_eq!(
        prepare_new_ticket("s", "", 0, None).err(),
        Some(SupportError::MessageEmpty { context: EmptyMessageContext::NewTicket })
    );
    assert!(prepare_new_ticket("s", "", 1, Some("{\"a\":1}")).is_ok());
    assert_eq!(prepare_new_ticket("s", "m", 0, Some("[1]")).err(), Some(SupportError::MetadataNotObject));
}

#[test]
fn new_ticket_category_and_server() {
    assert_eq!(choose_new_ticket_category(false, &CategoryLookup::NotRequested), Ok(None));
    let found = CategoryLookup::Found { uuid: 3, name: "x".to_string(), enabled: true };
    assert_eq!(choose_new_ticket_category(false, &found), Err(SupportError::CategoriesDisabled));
    assert_eq!(choose_new_ticket_category(true, &found), Ok(Some(3)));
    let off = CategoryLookup::Found { uuid: 3, name: "x".to_string(), enabled: false };
    assert_eq!(choose_new_ticket_category(true, &off), Err(SupportError::SelectedCategoryDisabled));
    assert_eq!(choose_new_ticket_category(true, &CategoryLookup::Missing), Err(SupportError::SelectedCategoryNotFound));
    assert_eq!(choose_linked_server(&ServerLookup::Missing), Err(SupportError::ServerNotAccessible));
    assert_eq!(choose_linked_server(&ServerLookup::Found { uuid: 4 }), Ok(Some(4)));
}

#[test]
fn created_tickets_wait_on_staff() {
    let content = prepare_new_ticket("Subject", "Body", 0, None).unwrap();
    let c = plan_create_ticket(77, &client(), &content, Some(3), None, 1000);
    assert_eq!(c.next.status, TicketStatus::WaitingOnStaff);
    assert_eq!(c.next.priority, Some(TicketPriority::Normal));
    assert_eq!(c.next.last_reply_by_type, Some(TicketActorType::Client));
    assert!(wf(&c.next));
    assert_eq!(c.audit_event, AuditEventKind::TicketCreated);
    assert_eq!(c.webhook.unwrap().kind, DiscordWebhookEventKind::TicketCreated);
}

#[test]
fn clients_only_see_and_touch_their_own_tickets() {
    let t = open_ticket();
    assert!(client_can_see(&t, CLIENT));
    assert!(!client_can_see(&t, STAFF));
    let deleted = TicketRecord { deleted_at: Some(1), ..closed_ticket() };
    assert!(!client_can_see(&deleted, CLIENT));
    assert_eq!(
        plan_client_status(&t, &staff(), true, "closed", 1).err(),
        Some(SupportError::TicketNotFound)
    );
    assert_eq!(
        plan_client_reply(&deleted, &client(), true, "hi", 0, 1).err(),
        Some(SupportError::TicketNotFound)
    );
}

#[test]
fn staff_see_every_ticket_that_is_not_deleted() {
    assert!(staff_can_see(&open_ticket()));
    assert!(staff_can_see(&closed_ticket()));
    let deleted = plan_soft_delete(&open_ticket(), &staff(), 800).unwrap().next;
    assert!(!staff_can_see(&deleted));
}
